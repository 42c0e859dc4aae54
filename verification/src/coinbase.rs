//! Coinbase provider: local burn, or a remote wallet round-trip whose
//! response is hex-decoded and then decoded by the canonical codec.

use vstd::prelude::*;
use crate::env::WalletClient;
use crate::hex::{from_hex, hex_bytes, is_hex_str};
use crate::reward::{burn_key_id, reward_output, spec_burn_key_id, Keychain};
use crate::ser::{
    decode_kernel, decode_key_id, decode_output, spec_decode_kernel, spec_decode_key_id,
    spec_decode_output,
};
use crate::sys::random_seed;
use crate::types::{
    BlockFees, BuildError, BuildFault, KernelFeatures, Output, OutputFeatures, TxKernel,
    WalletResponse,
};

verus! {

/// Mathematical value of a [`WalletResponse`]: its three hex fields.
pub struct WalletResponseV {
    pub output: Seq<char>,
    pub kernel: Seq<char>,
    pub key_id: Seq<char>,
}

impl View for WalletResponse {
    type V = WalletResponseV;

    open spec fn view(&self) -> WalletResponseV {
        WalletResponseV { output: self.output@, kernel: self.kernel@, key_id: self.key_id@ }
    }
}

/// Whether a wallet response decodes: three valid hex fields, each
/// carrying a canonical encoding of its artifact.
pub open spec fn response_decodes(v: WalletResponseV) -> bool {
    &&& is_hex_str(v.output)
    &&& is_hex_str(v.kernel)
    &&& is_hex_str(v.key_id)
    &&& spec_decode_output(hex_bytes(v.output)) is Some
    &&& spec_decode_kernel(hex_bytes(v.kernel)) is Some
    &&& spec_decode_key_id(hex_bytes(v.key_id)) is Some
}

/// The first stage at which a non-decoding response fails: the three
/// hex decodes run first, then the three codec decodes.
pub open spec fn response_fault(v: WalletResponseV) -> BuildFault {
    if !is_hex_str(v.output) {
        BuildFault::HexOutput
    } else if !is_hex_str(v.kernel) {
        BuildFault::HexKernel
    } else if !is_hex_str(v.key_id) {
        BuildFault::HexKeyId
    } else if spec_decode_output(hex_bytes(v.output)) is None {
        BuildFault::DecodeOutput
    } else if spec_decode_kernel(hex_bytes(v.kernel)) is None {
        BuildFault::DecodeKernel
    } else {
        BuildFault::DecodeKeyId
    }
}

/// Decodes the three artifacts of a wallet response. The wallet's key
/// identifier replaces the one in `block_fees`: the wallet is
/// authoritative for which key it used. Every failure is a generic
/// build fault, never a wallet error: the wallet did respond.
pub fn parse_wallet_response(resp: &WalletResponse, block_fees: BlockFees) -> (r: Result<
    (Output, TxKernel, BlockFees),
    BuildError,
>)
    ensures
        r is Ok <==> response_decodes(resp@),
        r matches Err(e) ==> e == BuildError::General(response_fault(resp@)),
        r matches Ok(t) ==> {
            &&& spec_decode_output(hex_bytes(resp@.output)) == Some(t.0@)
            &&& spec_decode_kernel(hex_bytes(resp@.kernel)) == Some(t.1@)
            &&& t.2.key_id is Some
            &&& spec_decode_key_id(hex_bytes(resp@.key_id)) == Some(t.2.key_id->0)
            &&& t.2.fees == block_fees.fees
            &&& t.2.height == block_fees.height
            &&& t.0.wf()
            &&& t.1.wf()
        },
{
    let out_bin = match from_hex(resp.output.as_str()) {
        Some(b) => b,
        None => {
            return Err(BuildError::General(BuildFault::HexOutput));
        },
    };
    let kern_bin = match from_hex(resp.kernel.as_str()) {
        Some(b) => b,
        None => {
            return Err(BuildError::General(BuildFault::HexKernel));
        },
    };
    let key_id_bin = match from_hex(resp.key_id.as_str()) {
        Some(b) => b,
        None => {
            return Err(BuildError::General(BuildFault::HexKeyId));
        },
    };
    let output = match decode_output(&out_bin) {
        Ok(o) => o,
        Err(_) => {
            return Err(BuildError::General(BuildFault::DecodeOutput));
        },
    };
    let kernel = match decode_kernel(&kern_bin) {
        Ok(k) => k,
        Err(_) => {
            return Err(BuildError::General(BuildFault::DecodeKernel));
        },
    };
    let key_id = match decode_key_id(&key_id_bin) {
        Ok(k) => k,
        Err(_) => {
            return Err(BuildError::General(BuildFault::DecodeKeyId));
        },
    };
    Ok(
        (
            output,
            kernel,
            BlockFees { fees: block_fees.fees, key_id: Some(key_id), height: block_fees.height },
        ),
    )
}

/// Local burn: derives the fixed burn path from a freshly seeded
/// ephemeral keychain and produces the reward pair locally. Re-seeding
/// on every call makes repeated commitments differ across retries.
pub fn burn_reward(block_fees: BlockFees) -> (r: Result<(Output, TxKernel, BlockFees), BuildError>)
    ensures
        r is Ok,
        r matches Ok(t) ==> {
            &&& t.0.wf()
            &&& t.0.features == OutputFeatures::Coinbase
            &&& t.1.wf()
            &&& t.1.features == KernelFeatures::Coinbase
            &&& t.1.fee == 0
            &&& t.1.lock_height == 0
            &&& t.2 == (BlockFees {
                fees: block_fees.fees,
                key_id: Some(spec_burn_key_id()),
                height: block_fees.height,
            })
        },
{
    let keychain = Keychain::from_seed(random_seed());
    let key_id = burn_key_id();
    let (output, kernel) = reward_output(&keychain, &key_id, block_fees.fees);
    Ok(
        (
            output,
            kernel,
            BlockFees { fees: block_fees.fees, key_id: Some(key_id), height: block_fees.height },
        ),
    )
}

/// Obtains the coinbase pair. With no wallet listener URL configured
/// the reward is burnt locally and no network I/O happens at all; with
/// one, the wallet client is asked and its response decoded, and the
/// wallet's key identifier replaces the one in the fees.
pub fn get_coinbase<W: WalletClient>(
    wallet: &mut W,
    wallet_listener_url: &Option<String>,
    block_fees: BlockFees,
) -> (r: Result<(Output, TxKernel, BlockFees), BuildError>)
    ensures
        wallet_listener_url is None ==> r is Ok,
        r matches Ok(t) ==> {
            &&& t.0.wf()
            &&& t.1.wf()
            &&& t.2.fees == block_fees.fees
            &&& t.2.height == block_fees.height
            &&& t.2.key_id is Some
            &&& wallet_listener_url is None ==> {
                &&& t.0.features == OutputFeatures::Coinbase
                &&& t.1.features == KernelFeatures::Coinbase
                &&& t.1.fee == 0
                &&& t.1.lock_height == 0
                &&& t.2.key_id == Some(spec_burn_key_id())
            }
        },
        r matches Err(e) ==> (e matches BuildError::Wallet(_) || e matches BuildError::General(_)),
{
    match wallet_listener_url {
        None => burn_reward(block_fees),
        Some(url) => {
            let resp = match wallet.create_coinbase(url.as_str(), &block_fees) {
                Ok(resp) => resp,
                Err(we) => {
                    return Err(BuildError::Wallet(we));
                },
            };
            parse_wallet_response(&resp, block_fees)
        },
    }
}

} // verus!
