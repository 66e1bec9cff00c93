use pte_client::error::{DecompileError, TransactionSubmissionError};
use pte_client::receipt::{receipt_from_response, InvalidAddress, Receipt};
use pte_client::request::{assemble_request, convert_signatures, extract_nonce};
use pte_client::transaction::{Instruction, SignedTransaction, Transaction};
use scrypto::prelude::{
    ComponentAddress, PackageAddress, ResourceAddress, Secp256k1PublicKey, Secp256k1Signature,
};

fn publish() -> Instruction {
    Instruction::PublishPackage { code: vec![0, 97, 115, 109] }
}

fn key(b: u8) -> Secp256k1PublicKey {
    Secp256k1PublicKey([b; 33])
}

fn sig(b: u8) -> Secp256k1Signature {
    Secp256k1Signature([b; 65])
}

fn receipt_with(packages: Vec<&str>, components: Vec<&str>, resources: Vec<&str>) -> Receipt {
    Receipt {
        transaction_hash: "abc".to_string(),
        status: "Succeeded".to_string(),
        outputs: vec![],
        logs: vec![],
        new_packages: packages.into_iter().map(|s| s.to_string()).collect(),
        new_components: components.into_iter().map(|s| s.to_string()).collect(),
        new_resources: resources.into_iter().map(|s| s.to_string()).collect(),
    }
}

fn address_hex(entity: &str) -> String {
    format!("{}{}", entity, "01".repeat(29))
}

#[test]
fn single_nonce_is_extracted() {
    let r = extract_nonce(&vec![publish(), Instruction::Nonce { nonce: 12 }]);
    assert_eq!(r.unwrap(), 12);
    let r = extract_nonce(&vec![Instruction::Nonce { nonce: u64::MAX }]);
    assert_eq!(r.unwrap(), u64::MAX);
}

#[test]
fn missing_nonce_is_an_error() {
    assert!(matches!(extract_nonce(&vec![]), Err(TransactionSubmissionError::NoNonceFound)));
    assert!(matches!(
        extract_nonce(&vec![publish(), publish()]),
        Err(TransactionSubmissionError::NoNonceFound)
    ));
}

#[test]
fn several_nonces_are_an_error_in_any_order() {
    let orders = vec![
        vec![Instruction::Nonce { nonce: 1 }, Instruction::Nonce { nonce: 1 }, publish()],
        vec![Instruction::Nonce { nonce: 1 }, publish(), Instruction::Nonce { nonce: 2 }],
        vec![publish(), Instruction::Nonce { nonce: 2 }, Instruction::Nonce { nonce: 1 }],
    ];
    for instructions in orders {
        assert!(matches!(
            extract_nonce(&instructions),
            Err(TransactionSubmissionError::MultipleNonceFound)
        ));
    }
}

#[test]
fn nonce_position_does_not_matter() {
    let a = extract_nonce(&vec![Instruction::Nonce { nonce: 5 }, publish(), publish()]);
    let b = extract_nonce(&vec![publish(), publish(), Instruction::Nonce { nonce: 5 }]);
    assert_eq!(a.unwrap(), 5);
    assert_eq!(b.unwrap(), 5);
}

#[test]
fn signatures_keep_order_and_render_as_hex() {
    let pairs = vec![(key(1), sig(2)), (key(171), sig(255)), (key(0), sig(16))];
    let out = convert_signatures(&pairs);
    assert_eq!(out.len(), 3);
    assert_eq!(out[0].public_key, "01".repeat(33));
    assert_eq!(out[0].signature, "02".repeat(65));
    assert_eq!(out[1].public_key, "ab".repeat(33));
    assert_eq!(out[1].signature, "ff".repeat(65));
    assert_eq!(out[2].public_key, "00".repeat(33));
    assert_eq!(out[2].signature, "10".repeat(65));
    assert!(convert_signatures(&vec![]).is_empty());
}

#[test]
fn request_for_nonce_42_and_two_signers() {
    let tx = SignedTransaction {
        transaction: Transaction {
            instructions: vec![publish(), Instruction::Nonce { nonce: 42 }],
        },
        signatures: vec![(key(3), sig(4)), (key(5), sig(6))],
    };
    let manifest = "PUBLISH_PACKAGE Bytes(\"0061736d\");".to_string();
    let body = assemble_request(&tx, Ok(manifest.clone())).unwrap();
    assert_eq!(body.nonce.value, 42);
    assert_eq!(body.manifest, manifest);
    assert_eq!(body.signatures.len(), 2);
    assert_eq!(body.signatures[0].public_key, "03".repeat(33));
    assert_eq!(body.signatures[0].signature, "04".repeat(65));
    assert_eq!(body.signatures[1].public_key, "05".repeat(33));
    assert_eq!(body.signatures[1].signature, "06".repeat(65));
}

#[test]
fn decompile_failure_is_passed_on() {
    let tx = SignedTransaction {
        transaction: Transaction { instructions: vec![Instruction::Nonce { nonce: 1 }] },
        signatures: vec![],
    };
    let failure = DecompileError { message: "unknown instruction".to_string() };
    match assemble_request(&tx, Err(failure)) {
        Err(TransactionSubmissionError::DecompileError(e)) => {
            assert_eq!(e.message, "unknown instruction")
        },
        other => panic!("unexpected outcome: {:?}", other),
    }
}

#[test]
fn nonce_errors_come_before_decompile_errors() {
    let none = SignedTransaction {
        transaction: Transaction { instructions: vec![publish()] },
        signatures: vec![],
    };
    let failure = DecompileError { message: "bad".to_string() };
    assert!(matches!(
        assemble_request(&none, Err(failure.clone())),
        Err(TransactionSubmissionError::NoNonceFound)
    ));
    let two = SignedTransaction {
        transaction: Transaction {
            instructions: vec![Instruction::Nonce { nonce: 1 }, Instruction::Nonce { nonce: 2 }],
        },
        signatures: vec![],
    };
    assert!(matches!(
        assemble_request(&two, Err(failure)),
        Err(TransactionSubmissionError::MultipleNonceFound)
    ));
}

#[test]
fn unreadable_response_keeps_the_raw_text() {
    let raw = "<html>502 Bad Gateway</html>".to_string();
    assert!(serde_json::from_str::<serde_json::Value>(&raw).is_err());
    match receipt_from_response(raw.clone(), None) {
        Err(TransactionSubmissionError::JsonDeserializationError(text)) => assert_eq!(text, raw),
        other => panic!("unexpected outcome: {:?}", other),
    }
}

#[test]
fn readable_response_gives_its_receipt() {
    let receipt = receipt_with(vec!["pkg_1"], vec![], vec![]);
    let r = receipt_from_response("{}".to_string(), Some(receipt)).unwrap();
    assert_eq!(r.transaction_hash, "abc");
    assert_eq!(r.status, "Succeeded");
    assert_eq!(r.new_packages, vec!["pkg_1".to_string()]);
}

#[test]
fn invalid_package_address_is_reported() {
    let receipt = receipt_with(vec!["pkg_1"], vec![], vec![]);
    assert!(PackageAddress::try_from_hex("pkg_1").is_none());
    match receipt.new_packages() {
        Err(InvalidAddress { address }) => assert_eq!(address, "pkg_1"),
        Ok(v) => panic!("parsed {} addresses", v.len()),
    }
}

#[test]
fn valid_package_address_is_parsed() {
    let hex = address_hex("0d");
    let receipt = receipt_with(vec![hex.as_str()], vec![], vec![]);
    let parsed = receipt.new_packages().unwrap();
    assert_eq!(parsed.len(), 1);
    assert_eq!(parsed[0], PackageAddress::try_from_hex(&hex).unwrap());
    assert_eq!(parsed[0].to_hex(), hex);
}

#[test]
fn first_invalid_address_is_the_error() {
    let good = address_hex("0d");
    let receipt = receipt_with(vec![good.as_str(), "zz", "yy"], vec![], vec![]);
    match receipt.new_packages() {
        Err(InvalidAddress { address }) => assert_eq!(address, "zz"),
        Ok(_) => panic!("expected an error"),
    }
    let component = address_hex("c0");
    let resource = address_hex("5d");
    let wrong_kind = receipt_with(vec![component.as_str()], vec![], vec![]);
    assert!(wrong_kind.new_packages().is_err());
    let mixed = receipt_with(vec![], vec![component.as_str()], vec![resource.as_str()]);
    assert!(mixed.new_resources().is_ok());
    assert!(mixed.new_components().is_ok());
    assert!(mixed.new_packages().unwrap().is_empty());
}

#[test]
fn component_and_resource_addresses_are_parsed() {
    let component = address_hex("c0");
    let resource = address_hex("5d");
    let receipt = receipt_with(vec![], vec![component.as_str()], vec![resource.as_str(), "x"]);
    let components = receipt.new_components().unwrap();
    assert_eq!(components, vec![ComponentAddress::try_from_hex(&component).unwrap()]);
    match receipt.new_resources() {
        Err(InvalidAddress { address }) => assert_eq!(address, "x"),
        Ok(_) => panic!("expected an error"),
    }
    let only_resource = receipt_with(vec![], vec![], vec![resource.as_str()]);
    assert_eq!(
        only_resource.new_resources().unwrap(),
        vec![ResourceAddress::try_from_hex(&resource).unwrap()]
    );
}

#[test]
fn errors_convert_from_their_sources() {
    let e = TransactionSubmissionError::from(DecompileError { message: "m".to_string() });
    assert!(matches!(e, TransactionSubmissionError::DecompileError(ref d) if d.message == "m"));
}
