use bucky_crypto::{PrivateKey, Signature};

/// A fixed 3072-bit RSA private key in PKCS#1 DER, as hex. Generating a key
/// of this size takes too long for an unoptimised test build.
fn rsa3072_der_hex() -> String {
    [
    "308206e30201000282018100b3f40dc76dc95b3973144671aca899672d5280c009e77b4d96fe30cebb8b5b3542c47201",
    "83e13f3f39599c59775a3de0d7f01afd539a7847540f25d37cd00699cd2aa2c82123e053ed5211486e673e60706149c4",
    "8fcb7eb62e6721c0e6be9a514e115b68a9e92f0ddf25a1289736eb50230502eca85b7881010afc32fede1779fdd84234",
    "3bac0838ce6bead9a48a6ea381e2e1fa4e9e0c28393805ead6367090177a9fd5df00b0b3b1072348ebdb63156ea34202",
    "377383d6b21e343513c42d802a71048475ad35522a4f2a3da11a50a832879375d15410efb3e30cedcfb29414cd6c60c5",
    "8a357828782ce8df753768a962b102dab5d96756e4efabc24c90fda3881028cc0ea18a16cb1d3178f1e4f507c205481c",
    "26834ee5071a0353157b6756bb826c5f443dffbc6c0ec4394c4e22f9cdff365610dfc8f2856f80d14401896ea3992dda",
    "99eb56667a6c783b29660b1bbb6b30047ba771adf679a26b80867c789f3936736bdebe86753bb866ff1fe7b68685f117",
    "f933b167fcc6661fd3f02bfd0203010001028201802bc5705892fec85eb7fc358a4eea0fae461aec5049d871689512ad",
    "428be1c0c4bac1d7cd408bd87b8372a5922972dcdc450a15368b5066734b22081c621ea38c63983c521ba5835a46be90",
    "8fa2b3203c0af9cf1cadb15cd7e97f92793e671c582c7a1256ea055b39af8e929db1f25cd8783c2ed2ebbc9c1a1cebd4",
    "1e7f59fc31e329e828965f28fcd050f5a60cdcd33e98485c992ae84ca2b810457832b4b93a834b83775d2fe8cb3c8334",
    "f4f6d1bd4f284333ba204ccbc3bc3d968b568c805865066e6a7fb697b8605071ac6b8d81887cbb45decab9aa335dd22a",
    "78fcc0f2c17c4d235a1d77fda956510f3cd705d40a49b74a543d8f363fe4e7ce67262a74d4883301100ba6b62f49638a",
    "e387a0bfa0b332be585fcd392239d071718155a9a5017781289ad647e59516c825cba9f6ae1def941b656572544c84a8",
    "3d22ef01bde5b3c80d629d74d06dfc5c1990b6090056c6ec8c28c2c63cb474f2eaadda9d73c1f004b32a0b1fd043fa33",
    "7a559453ac6e4213e6f7114da74c8288b646b629e10281c100dc756fb44c64b9be928ee1c615a49a3319ede42ea44134",
    "ff42954e186813c9b29aa12b17b5babead4637109abfda531df57b6cc788e202a138fe8602f2c9b2369751fee0ed9106",
    "78dffb6202f333a0af34d7d48138687592597230ad8fc8ca6f65e38f976cd709ee2b2ff0e5fccb9897cf067f059838ef",
    "e9ac24dbe5f4b07d8a3f1d5243bcbd6d8e63f9c907afd91c7199372b2140639e98ab33c7ad180a8dcb878a3f768c801c",
    "260e5d0b927a2b8b9a1231934218ba8b62f12dde0d84c3ee850281c100d0f6eac36044b7c8758c405bf7ab030b3edb74",
    "1d657f98e855143fac9c57fe4bcb7daa5024b5a4caac2e407e8cb0e15174ecad39493510595006198b0d80e83a5a77d6",
    "128f236703f3158964b4f5d99d39367bf43fc5c08d6c7e18cb47f2834b65ccd0595aa3d43228745d793ed8258fcd940a",
    "46d3e2fe74e5cd6b17df138f9868c2bf4217bbd99f2d51d786e7cdb00b2eda882b9f1b2dbeeeb68d54091a8b580960d7",
    "af78a25bb9ce8e8428dc87e8688b493c247cb9a1792ab8a57a9f86ad190281c10087d6405eca9761af9fe4340ef674f6",
    "a237fed1933f98020caa3d0ee290f668580958f71163e34debbc10dfc54a233f057da570303e126c666494c783f78ef9",
    "a51375ed63305e24abc3eec3c4678fcf1945a91b0207fcad3ce0aa307e30d31a90ab2a1ce6c3a47834ed1d5c0489cff5",
    "14ccf606bc2ec01e6b4fab6266fd6ee5db91ea022f44933f76f5f909ba17cae1f0c8e42a4a11bf901027a4ff0a937ea5",
    "41dc20fddb90d4bb0363e446e6192acd98c04f159a2b5c7dd8181d17ee22790b750281c01bf0072f1bddd41c6eead367",
    "f852dad354120f122711ca25b5ca4141189e0317ab1b1ffc1b0c55fdeacb3c402f1b2ee4af173d899d2a05078bd564f0",
    "dc5b51b10b8b5e09992d888654a79a78e660c0396efec3cfc1fef4617411dfcabdd1c48ffe0a4608cc3f7f0d3daf6117",
    "e6b90b3c90a5ac420fee174b15b6430d2bfbf784ceecca99518701ef7025b3050c54c9a6951b0e7d968611b5a740ace0",
    "815f15262e0ace8b5d3b87bbedcbcc0b9280712819072f8d4947a0390ce726e8a00f67710281c055ab268e276577d139",
    "2a357d78251e4e47bd0eb366e05133997ef140e98a633c7167a3efb8693270d760e340fbadc05589481656b57f1be5aa",
    "fd922e0bdffe6ec034804307c7f94fa6063c5f119e9a94a75ee2eed1788fbc235b7559e7af213dba9c751f31e5aa7a73",
    "0b85cf92da21093371993c649d22913e286f17e602d16dd0c48ebf8c3eb6f245b1ab027f1be55712a5df8da76d28723a",
    "a1eadd99bf7b40388120945499a5a6673ee11fa6eb2b307d6f30426b1e2b71a0963c3adacf9b2e",
    ]
    .concat()
}

fn rsa3072_key() -> PrivateKey {
    let der = hex::decode(rsa3072_der_hex()).unwrap();
    let mut frame = vec![0u8, (der.len() >> 8) as u8, der.len() as u8];
    frame.extend_from_slice(&der);
    let (key, rest) = PrivateKey::raw_decode(&frame).unwrap();
    assert!(rest.is_empty());
    assert_eq!(key.to_vec().unwrap(), frame);
    key
}

#[test]
fn rsa3072_sign_verify_and_codec() {
    let msg = b"112233445566778899";
    let pk1 = rsa3072_key();
    let sign = pk1.sign(msg).unwrap();
    assert_eq!(sign.sign().tag(), 2);
    assert_eq!(sign.as_slice().len(), 384);
    assert!(pk1.public().verify(msg, &sign));
    let buf = sign.to_vec();
    let sign2 = Signature::clone_from_slice(&buf).unwrap();
    assert_eq!(sign, sign2);
    assert!(!pk1.public().verify(b"112233445566778890", &sign));
}

#[test]
fn rsa3072_wrap_and_unwrap() {
    let pk1 = rsa3072_key();
    let (aes_key, mut data) = pk1.public().gen_aeskey_and_encrypt().unwrap();
    assert_eq!(data.len(), 384);
    data.extend_from_slice(b"rest");
    let (buf, data2) = pk1.decrypt_aeskey_data(&data).unwrap();
    assert_eq!(buf, b"rest");
    assert_eq!(aes_key.as_slice(), data2);
}
