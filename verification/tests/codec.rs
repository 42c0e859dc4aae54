//! Codec, hex and wallet-response parsing behaviour.

use mine_block::coinbase::parse_wallet_response;
use mine_block::hex::from_hex;
use mine_block::ser::{
    decode_kernel, decode_key_id, decode_output, encode_kernel, encode_key_id, encode_output,
    CodecError,
};
use mine_block::types::{
    BlockFees, BuildError, BuildFault, KernelFeatures, KeyIdentifier, Output, OutputFeatures,
    TxKernel, WalletResponse,
};

fn to_hex(bytes: &[u8]) -> String {
    let mut s = String::new();
    for b in bytes {
        s.push_str(&format!("{:02x}", b));
    }
    s
}

fn sample_output() -> Output {
    Output {
        features: OutputFeatures::Coinbase,
        commit: (0u8..33u8).collect(),
    }
}

fn sample_kernel() -> TxKernel {
    TxKernel {
        features: KernelFeatures::Coinbase,
        fee: 0x0102030405060708,
        lock_height: 9,
        excess: vec![0xaa; 33],
        excess_sig: vec![0xbb; 64],
    }
}

fn sample_key_id() -> KeyIdentifier {
    KeyIdentifier {
        depth: 2,
        path0: 7,
        path1: 1,
        path2: 0,
        path3: 0,
    }
}

#[test]
fn hex_decodes_exact_values() {
    assert_eq!(from_hex("00ff10"), Some(vec![0u8, 255u8, 16u8]));
    assert_eq!(from_hex(""), Some(vec![]));
    assert_eq!(from_hex("AB"), Some(vec![171u8]));
    assert_eq!(from_hex("aB"), Some(vec![171u8]));
}

#[test]
fn hex_rejects_odd_length() {
    assert_eq!(from_hex("abc"), None);
    assert_eq!(from_hex("0"), None);
}

#[test]
fn hex_rejects_non_digits() {
    assert_eq!(from_hex("zz"), None);
    assert_eq!(from_hex("0g"), None);
    assert_eq!(from_hex("  "), None);
}

#[test]
fn hex_round_trip() {
    let bytes: Vec<u8> = (0u8..=255u8).collect();
    let s = to_hex(&bytes);
    assert_eq!(from_hex(&s), Some(bytes));
}

#[test]
fn output_round_trip() {
    let o = sample_output();
    let enc = encode_output(&o);
    assert_eq!(enc.len(), 34);
    assert_eq!(enc[0], 1);
    assert_eq!(decode_output(&enc), Ok(o));
}

#[test]
fn output_encoding_exact_bytes() {
    let o = Output {
        features: OutputFeatures::Plain,
        commit: vec![7u8; 33],
    };
    let mut expected = vec![0u8];
    expected.extend(vec![7u8; 33]);
    assert_eq!(encode_output(&o), expected);
}

#[test]
fn output_decode_rejects_bad_input() {
    assert_eq!(decode_output(&vec![]), Err(CodecError::Malformed));
    assert_eq!(decode_output(&vec![0u8; 33]), Err(CodecError::Malformed));
    assert_eq!(decode_output(&vec![0u8; 35]), Err(CodecError::Malformed));
    let mut bad_feature = vec![2u8];
    bad_feature.extend(vec![0u8; 33]);
    assert_eq!(decode_output(&bad_feature), Err(CodecError::Malformed));
}

#[test]
fn kernel_round_trip() {
    let k = sample_kernel();
    let enc = encode_kernel(&k);
    assert_eq!(enc.len(), 114);
    assert_eq!(enc[0], 1);
    assert_eq!(&enc[1..9], &[1, 2, 3, 4, 5, 6, 7, 8]);
    assert_eq!(&enc[9..17], &[0, 0, 0, 0, 0, 0, 0, 9]);
    assert_eq!(decode_kernel(&enc), Ok(k));
}

#[test]
fn kernel_decode_rejects_bad_input() {
    assert_eq!(decode_kernel(&vec![]), Err(CodecError::Malformed));
    assert_eq!(decode_kernel(&vec![0u8; 113]), Err(CodecError::Malformed));
    let mut bad_feature = vec![3u8];
    bad_feature.extend(vec![0u8; 113]);
    assert_eq!(decode_kernel(&bad_feature), Err(CodecError::Malformed));
}

#[test]
fn key_id_round_trip_and_exact_bytes() {
    let k = KeyIdentifier {
        depth: 1,
        path0: 1,
        path1: 0,
        path2: 0,
        path3: 0,
    };
    let enc = encode_key_id(&k);
    let mut expected = vec![1u8, 0, 0, 0, 1];
    expected.extend(vec![0u8; 12]);
    assert_eq!(enc, expected);
    assert_eq!(decode_key_id(&enc), Ok(k));
    let k2 = sample_key_id();
    assert_eq!(decode_key_id(&encode_key_id(&k2)), Ok(k2));
}

#[test]
fn key_id_decode_rejects_wrong_width() {
    assert_eq!(decode_key_id(&vec![0u8; 16]), Err(CodecError::Malformed));
    assert_eq!(decode_key_id(&vec![0u8; 18]), Err(CodecError::Malformed));
}

#[test]
fn decoding_arbitrary_bytes_never_panics() {
    // A small pseudo-random byte soup: every call must come back with
    // Ok or Err, whatever the bytes.
    let mut state: u64 = 0x12345678;
    for len in 0..200usize {
        let mut bytes = Vec::with_capacity(len);
        for _ in 0..len {
            state = state.wrapping_mul(6364136223846793005).wrapping_add(1442695040888963407);
            bytes.push((state >> 33) as u8);
        }
        let _ = decode_output(&bytes);
        let _ = decode_kernel(&bytes);
        let _ = decode_key_id(&bytes);
        let _ = from_hex(&to_hex(&bytes));
    }
}

fn fees_at(height: u64) -> BlockFees {
    BlockFees {
        fees: 12,
        key_id: None,
        height,
    }
}

#[test]
fn parse_wallet_response_replaces_key_id() {
    let resp = WalletResponse {
        output: to_hex(&encode_output(&sample_output())),
        kernel: to_hex(&encode_kernel(&sample_kernel())),
        key_id: to_hex(&encode_key_id(&sample_key_id())),
    };
    let (out, kern, fees) = parse_wallet_response(&resp, fees_at(42)).unwrap();
    assert_eq!(out, sample_output());
    assert_eq!(kern, sample_kernel());
    assert_eq!(fees.fees, 12);
    assert_eq!(fees.height, 42);
    assert_eq!(fees.key_id, Some(sample_key_id()));
}

#[test]
fn parse_wallet_response_bad_hex_faults() {
    let good = WalletResponse {
        output: to_hex(&encode_output(&sample_output())),
        kernel: to_hex(&encode_kernel(&sample_kernel())),
        key_id: to_hex(&encode_key_id(&sample_key_id())),
    };
    let mut r = good.clone();
    r.output = String::from("zz");
    assert_eq!(
        parse_wallet_response(&r, fees_at(1)),
        Err(BuildError::General(BuildFault::HexOutput))
    );
    let mut r = good.clone();
    r.kernel = String::from("abc");
    assert_eq!(
        parse_wallet_response(&r, fees_at(1)),
        Err(BuildError::General(BuildFault::HexKernel))
    );
    let mut r = good.clone();
    r.key_id = String::from("-1");
    assert_eq!(
        parse_wallet_response(&r, fees_at(1)),
        Err(BuildError::General(BuildFault::HexKeyId))
    );
}

#[test]
fn parse_wallet_response_bad_encoding_faults() {
    let good = WalletResponse {
        output: to_hex(&encode_output(&sample_output())),
        kernel: to_hex(&encode_kernel(&sample_kernel())),
        key_id: to_hex(&encode_key_id(&sample_key_id())),
    };
    let mut r = good.clone();
    r.output = String::from("0011");
    assert_eq!(
        parse_wallet_response(&r, fees_at(1)),
        Err(BuildError::General(BuildFault::DecodeOutput))
    );
    let mut r = good.clone();
    r.kernel = String::from("00");
    assert_eq!(
        parse_wallet_response(&r, fees_at(1)),
        Err(BuildError::General(BuildFault::DecodeKernel))
    );
    let mut r = good.clone();
    r.key_id = String::from("00");
    assert_eq!(
        parse_wallet_response(&r, fees_at(1)),
        Err(BuildError::General(BuildFault::DecodeKeyId))
    );
}
