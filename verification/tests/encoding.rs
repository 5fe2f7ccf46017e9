use token_purchaser::abi::{
    assemble, check_token, encode, fits_encoding, parse_address, validate, FunctionSignature,
    ParamType, Token,
};
use token_purchaser::catalog::RemoteFunction;
use token_purchaser::error::ContractError;
use token_purchaser::registry::ChainSetting;
use token_purchaser::uint::Uint256;

fn hex(text: &str) -> Vec<u8> {
    let digits: Vec<u8> = text.bytes().map(|b| (b as char).to_digit(16).unwrap() as u8).collect();
    digits.chunks(2).map(|pair| pair[0] * 16 + pair[1]).collect()
}

fn signature(name: &str, parameters: Vec<ParamType>) -> FunctionSignature {
    FunctionSignature { name: name.to_string(), parameters }
}

#[test]
fn send_token_golden_vector() {
    let tokens = vec![
        Token::Address([0x11; 20]),
        Token::Address([0x22; 20]),
        Token::Uint(Uint256::from_u128(1000)),
        Token::Uint(Uint256::from_u128(1)),
    ];
    let payload = encode(&RemoteFunction::SendToken.signature(), &tokens).unwrap();
    let expected = hex(concat_all(&[
        "3feb6bf4",
        "0000000000000000000000001111111111111111111111111111111111111111",
        "0000000000000000000000002222222222222222222222222222222222222222",
        "00000000000000000000000000000000000000000000000000000000000003e8",
        "0000000000000000000000000000000000000000000000000000000000000001",
    ])
    .as_str());
    assert_eq!(payload.len(), 4 + 4 * 32);
    assert_eq!(payload, expected);
}

fn concat_all(parts: &[&str]) -> String {
    parts.concat()
}

#[test]
fn deploy_erc20_golden_vector() {
    let tokens = vec![
        Token::String("factory/paloma1abc/upusd".to_string()),
        Token::String("Paloma USD".to_string()),
        Token::String("PUSD".to_string()),
        Token::Uint(Uint256::from_u8(6)),
        Token::Address([
            0x00, 0x11, 0x22, 0x33, 0x44, 0x55, 0x66, 0x77, 0x88, 0x99, 0xaa, 0xbb, 0xcc, 0xdd,
            0xee, 0xff, 0x00, 0x11, 0x22, 0x33,
        ]),
    ];
    let payload = encode(&RemoteFunction::DeployErc20.signature(), &tokens).unwrap();
    let expected = hex(concat_all(&[
        "08a92ad7",
        "00000000000000000000000000000000000000000000000000000000000000a0",
        "00000000000000000000000000000000000000000000000000000000000000e0",
        "0000000000000000000000000000000000000000000000000000000000000120",
        "0000000000000000000000000000000000000000000000000000000000000006",
        "00000000000000000000000000112233445566778899aabbccddeeff00112233",
        "0000000000000000000000000000000000000000000000000000000000000018",
        "666163746f72792f70616c6f6d61316162632f75707573640000000000000000",
        "000000000000000000000000000000000000000000000000000000000000000a",
        "50616c6f6d612055534400000000000000000000000000000000000000000000",
        "0000000000000000000000000000000000000000000000000000000000000004",
        "5055534400000000000000000000000000000000000000000000000000000000",
    ])
    .as_str());
    assert_eq!(payload, expected);
}

#[test]
fn string_of_35_bytes_takes_96_bytes_of_tail() {
    let text = "a".repeat(35);
    let tokens = vec![Token::String(text)];
    let payload = encode(&signature("f", vec![ParamType::String]), &tokens).unwrap();
    // selector, one offset word, then the tail
    assert_eq!(payload.len(), 4 + 32 + 96);
    let tail = &payload[4 + 32..];
    assert_eq!(tail.len(), 32 + 64);
    let expected = hex(concat_all(&[
        "91e145ef",
        "0000000000000000000000000000000000000000000000000000000000000020",
        "0000000000000000000000000000000000000000000000000000000000000023",
        "6161616161616161616161616161616161616161616161616161616161616161",
        "6161610000000000000000000000000000000000000000000000000000000000",
    ])
    .as_str());
    assert_eq!(payload, expected);
}

#[test]
fn empty_string_has_only_a_length_word() {
    let tokens = vec![Token::String(String::new())];
    let payload = encode(&signature("f", vec![ParamType::String]), &tokens).unwrap();
    let expected = hex(concat_all(&[
        "91e145ef",
        "0000000000000000000000000000000000000000000000000000000000000020",
        "0000000000000000000000000000000000000000000000000000000000000000",
    ])
    .as_str());
    assert_eq!(payload, expected);
}

#[test]
fn string_of_32_bytes_is_not_padded() {
    let tokens = vec![Token::String("b".repeat(32))];
    let payload = encode(&signature("f", vec![ParamType::String]), &tokens).unwrap();
    let expected = hex(concat_all(&[
        "91e145ef",
        "0000000000000000000000000000000000000000000000000000000000000020",
        "0000000000000000000000000000000000000000000000000000000000000020",
        "6262626262626262626262626262626262626262626262626262626262626262",
    ])
    .as_str());
    assert_eq!(payload, expected);
}

#[test]
fn string_length_counts_utf8_bytes() {
    let tokens = vec![
        Token::Address([0xab; 20]),
        Token::String("héllo wörld".to_string()),
        Token::Uint(Uint256::from_u128(7)),
    ];
    let parameters = vec![ParamType::Address, ParamType::String, ParamType::Uint(256)];
    let payload = encode(&signature("g", parameters), &tokens).unwrap();
    let expected = hex(concat_all(&[
        "31974a7d",
        "000000000000000000000000abababababababababababababababababababab",
        "0000000000000000000000000000000000000000000000000000000000000060",
        "0000000000000000000000000000000000000000000000000000000000000007",
        "000000000000000000000000000000000000000000000000000000000000000d",
        "68c3a96c6c6f2077c3b6726c6400000000000000000000000000000000000000",
    ])
    .as_str());
    assert_eq!(payload, expected);
}

#[test]
fn call_without_arguments_is_the_selector() {
    let payload = encode(&RemoteFunction::SetPaloma.signature(), &Vec::new()).unwrap();
    assert_eq!(payload, hex("23fde8e2"));
}

#[test]
fn largest_uint256_is_all_ones() {
    let tokens = vec![Token::Uint(Uint256::from_be_bytes([0xff; 32]))];
    let payload = encode(&RemoteFunction::UpdateGasFee.signature(), &tokens).unwrap();
    let expected = hex(concat_all(&[
        "6e9bc3f6",
        "ffffffffffffffffffffffffffffffffffffffffffffffffffffffffffffffff",
    ])
    .as_str());
    assert_eq!(payload, expected);
}

#[test]
fn uint256_keeps_its_byte_order() {
    let mut bytes = [0u8; 32];
    for i in 0..32 {
        bytes[i] = (i + 1) as u8;
    }
    let tokens = vec![Token::Uint(Uint256::from_be_bytes(bytes))];
    let payload = encode(&RemoteFunction::UpdateServiceFee.signature(), &tokens).unwrap();
    let expected = hex(concat_all(&[
        "c4ec2ff1",
        "0102030405060708090a0b0c0d0e0f101112131415161718191a1b1c1d1e1f20",
    ])
    .as_str());
    assert_eq!(payload, expected);
}

#[test]
fn selectors_of_the_catalog() {
    let expected = [
        (RemoteFunction::DeployErc20, "08a92ad7"),
        (RemoteFunction::SendToken, "3feb6bf4"),
        (RemoteFunction::SetPaloma, "23fde8e2"),
        (RemoteFunction::UpdateCompass, "6974af69"),
        (RemoteFunction::UpdateRefundWallet, "c98856aa"),
        (RemoteFunction::UpdateGasFee, "6e9bc3f6"),
        (RemoteFunction::UpdateServiceFeeCollector, "30e59cbc"),
        (RemoteFunction::UpdateServiceFee, "c4ec2ff1"),
    ];
    for (function, selector) in expected {
        let tokens: Vec<Token> = function
            .parameters()
            .iter()
            .map(|kind| match kind {
                ParamType::Address => Token::Address([0; 20]),
                ParamType::String => Token::String(String::new()),
                ParamType::Uint(_) => Token::Uint(Uint256::zero()),
            })
            .collect();
        let payload = encode(&function.signature(), &tokens).unwrap();
        assert_eq!(payload[..4].to_vec(), hex(selector));
    }
}

#[test]
fn catalog_signatures() {
    let deploy = RemoteFunction::DeployErc20.signature();
    assert_eq!(deploy.name, "deploy_erc20");
    assert_eq!(
        deploy.parameters,
        vec![
            ParamType::String,
            ParamType::String,
            ParamType::String,
            ParamType::Uint(8),
            ParamType::Address
        ]
    );
    let send = RemoteFunction::SendToken.signature();
    assert_eq!(send.name, "send_token");
    assert_eq!(
        send.parameters,
        vec![ParamType::Address, ParamType::Address, ParamType::Uint(256), ParamType::Uint(256)]
    );
    assert_eq!(RemoteFunction::SetPaloma.name(), "set_paloma");
    assert_eq!(RemoteFunction::SetPaloma.parameters(), Vec::<ParamType>::new());
    assert_eq!(RemoteFunction::UpdateCompass.name(), "update_compass");
    assert_eq!(RemoteFunction::UpdateCompass.parameters(), vec![ParamType::Address]);
    assert_eq!(RemoteFunction::UpdateRefundWallet.name(), "update_refund_wallet");
    assert_eq!(RemoteFunction::UpdateRefundWallet.parameters(), vec![ParamType::Address]);
    assert_eq!(RemoteFunction::UpdateGasFee.name(), "update_gas_fee");
    assert_eq!(RemoteFunction::UpdateGasFee.parameters(), vec![ParamType::Uint(256)]);
    assert_eq!(RemoteFunction::UpdateServiceFeeCollector.name(), "update_service_fee_collector");
    assert_eq!(RemoteFunction::UpdateServiceFeeCollector.parameters(), vec![ParamType::Address]);
    assert_eq!(RemoteFunction::UpdateServiceFee.name(), "update_service_fee");
    assert_eq!(RemoteFunction::UpdateServiceFee.parameters(), vec![ParamType::Uint(256)]);
}

#[test]
fn only_deployment_travels_by_the_compass_job() {
    let setting =
        ChainSetting { compass_job_id: "compass".to_string(), main_job_id: "main".to_string() };
    assert!(RemoteFunction::DeployErc20.is_deployment());
    assert_eq!(RemoteFunction::DeployErc20.job_id(&setting), "compass");
    for function in [
        RemoteFunction::SendToken,
        RemoteFunction::SetPaloma,
        RemoteFunction::UpdateCompass,
        RemoteFunction::UpdateRefundWallet,
        RemoteFunction::UpdateGasFee,
        RemoteFunction::UpdateServiceFeeCollector,
        RemoteFunction::UpdateServiceFee,
    ] {
        assert!(!function.is_deployment());
        assert_eq!(function.job_id(&setting), "main");
    }
}

#[test]
fn uint8_out_of_range_is_rejected() {
    let tokens = vec![Token::Uint(Uint256::from_u128(256))];
    assert_eq!(
        encode(&signature("f", vec![ParamType::Uint(8)]), &tokens),
        Err(ContractError::ValueOutOfRange)
    );
}

#[test]
fn uint8_upper_bound_is_accepted() {
    let tokens = vec![Token::Uint(Uint256::from_u128(255))];
    let payload = encode(&signature("f", vec![ParamType::Uint(8)]), &tokens).unwrap();
    let expected = hex(concat_all(&[
        "3120d434",
        "00000000000000000000000000000000000000000000000000000000000000ff",
    ])
    .as_str());
    assert_eq!(payload, expected);
}

#[test]
fn too_few_values_is_an_arity_mismatch() {
    let tokens = vec![Token::Address([1; 20])];
    assert_eq!(
        encode(&RemoteFunction::SendToken.signature(), &tokens),
        Err(ContractError::ArityMismatch)
    );
    assert_eq!(
        validate(&RemoteFunction::SendToken.signature(), &tokens),
        Err(ContractError::ArityMismatch)
    );
}

#[test]
fn too_many_values_is_an_arity_mismatch() {
    let tokens = vec![Token::Address([1; 20])];
    assert_eq!(
        encode(&RemoteFunction::SetPaloma.signature(), &tokens),
        Err(ContractError::ArityMismatch)
    );
}

#[test]
fn value_of_another_kind_is_a_type_mismatch() {
    let tokens = vec![Token::String("0x00".to_string())];
    assert_eq!(
        encode(&RemoteFunction::UpdateCompass.signature(), &tokens),
        Err(ContractError::TypeMismatch)
    );
    let tokens = vec![Token::Address([0; 20])];
    assert_eq!(
        encode(&RemoteFunction::UpdateGasFee.signature(), &tokens),
        Err(ContractError::TypeMismatch)
    );
    let tokens = vec![Token::Uint(Uint256::zero())];
    assert_eq!(
        encode(&signature("f", vec![ParamType::String]), &tokens),
        Err(ContractError::TypeMismatch)
    );
}

#[test]
fn first_faulty_value_decides_the_error() {
    let parameters = vec![ParamType::Uint(8), ParamType::Address];
    let range_first =
        vec![Token::Uint(Uint256::from_u128(300)), Token::String("x".to_string())];
    assert_eq!(
        encode(&signature("f", parameters.clone()), &range_first),
        Err(ContractError::ValueOutOfRange)
    );
    let parameters = vec![ParamType::Address, ParamType::Uint(8)];
    let kind_first =
        vec![Token::String("x".to_string()), Token::Uint(Uint256::from_u128(300))];
    assert_eq!(
        encode(&signature("f", parameters), &kind_first),
        Err(ContractError::TypeMismatch)
    );
}

#[test]
fn validate_accepts_what_encode_accepts() {
    let tokens = vec![
        Token::Address([0x11; 20]),
        Token::Address([0x22; 20]),
        Token::Uint(Uint256::from_u128(u128::MAX)),
        Token::Uint(Uint256::zero()),
    ];
    assert_eq!(validate(&RemoteFunction::SendToken.signature(), &tokens), Ok(()));
    assert!(fits_encoding(&tokens));
}

#[test]
fn check_token_tells_kind_from_range() {
    assert_eq!(check_token(&ParamType::Address, &Token::Address([0; 20])), None);
    assert_eq!(check_token(&ParamType::String, &Token::String("s".to_string())), None);
    assert_eq!(check_token(&ParamType::Uint(8), &Token::Uint(Uint256::from_u8(255))), None);
    assert_eq!(
        check_token(&ParamType::Uint(8), &Token::Uint(Uint256::from_u128(256))),
        Some(ContractError::ValueOutOfRange)
    );
    assert_eq!(
        check_token(&ParamType::Uint(8), &Token::Address([0; 20])),
        Some(ContractError::TypeMismatch)
    );
    assert_eq!(
        check_token(&ParamType::String, &Token::Uint(Uint256::zero())),
        Some(ContractError::TypeMismatch)
    );
}

#[test]
fn assemble_puts_the_selector_first() {
    assert_eq!(assemble([1, 2, 3, 4], vec![5, 6]), vec![1, 2, 3, 4, 5, 6]);
    assert_eq!(assemble([9, 8, 7, 6], Vec::new()), vec![9, 8, 7, 6]);
}

#[test]
fn address_with_prefix_is_read() {
    let bytes = parse_address("0x5FbDB2315678afecb367f032d93F642f64180aa3").unwrap();
    assert_eq!(bytes.to_vec(), hex("5fbdb2315678afecb367f032d93f642f64180aa3"));
}

#[test]
fn address_without_prefix_is_read() {
    let bytes = parse_address("00112233445566778899aabbccddeeff00112233").unwrap();
    assert_eq!(bytes.to_vec(), hex("00112233445566778899aabbccddeeff00112233"));
}

#[test]
fn malformed_addresses_are_rejected() {
    assert_eq!(parse_address(""), Err(ContractError::InvalidPrincipal));
    assert_eq!(parse_address("0x"), Err(ContractError::InvalidPrincipal));
    assert_eq!(parse_address("0x1234"), Err(ContractError::InvalidPrincipal));
    assert_eq!(
        parse_address("0x5fbdb2315678afecb367f032d93f642f64180aa"),
        Err(ContractError::InvalidPrincipal)
    );
    assert_eq!(
        parse_address("0x5fbdb2315678afecb367f032d93f642f64180aa3ff"),
        Err(ContractError::InvalidPrincipal)
    );
    assert_eq!(
        parse_address("0xzzbdb2315678afecb367f032d93f642f64180aa3"),
        Err(ContractError::InvalidPrincipal)
    );
    assert_eq!(parse_address("paloma1qyqszqgpqyqszqgpqyqszqgp"), Err(ContractError::InvalidPrincipal));
}

#[test]
fn error_messages() {
    assert_eq!(ContractError::Unauthorized.message(), "Unauthorized");
    assert_eq!(ContractError::NotFound.message(), "Not found");
    assert_eq!(ContractError::ArityMismatch.message(), "Arity mismatch");
    assert_eq!(ContractError::TypeMismatch.message(), "Type mismatch");
    assert_eq!(ContractError::ValueOutOfRange.message(), "Value out of range");
    assert_eq!(ContractError::InvalidPrincipal.message(), "Invalid principal");
}

#[test]
fn longest_text_that_fits() {
    let longest = 67_108_768;
    assert!(fits_encoding(&vec![Token::String("a".repeat(longest))]));
    assert!(!fits_encoding(&vec![Token::String("a".repeat(longest + 1))]));
    // a word for the address leaves 32 bytes less for the text
    let with_address =
        vec![Token::Address([0; 20]), Token::String("a".repeat(longest - 32))];
    assert!(fits_encoding(&with_address));
    let with_address = vec![Token::Address([0; 20]), Token::String("a".repeat(longest))];
    assert!(!fits_encoding(&with_address));
}

#[test]
fn text_too_long_is_out_of_range() {
    let tokens = vec![Token::String("a".repeat(67_108_769))];
    let one_text = signature("f", vec![ParamType::String]);
    assert_eq!(validate(&one_text, &tokens), Err(ContractError::ValueOutOfRange));
    assert_eq!(encode(&one_text, &tokens), Err(ContractError::ValueOutOfRange));
}

#[test]
fn long_text_is_padded_to_whole_words() {
    let tokens = vec![Token::String("z".repeat(1_000_001))];
    let payload = encode(&signature("f", vec![ParamType::String]), &tokens).unwrap();
    assert_eq!(payload.len(), 4 + 32 + 32 + 1_000_032);
    assert_eq!(payload[..4].to_vec(), hex("91e145ef"));
    assert_eq!(payload[36..68].to_vec(), {
        let mut word = vec![0u8; 32];
        word[29] = 0x0f;
        word[30] = 0x42;
        word[31] = 0x41;
        word
    });
    assert!(payload[68..68 + 1_000_001].iter().all(|byte| *byte == b'z'));
    assert!(payload[68 + 1_000_001..].iter().all(|byte| *byte == 0));
}
