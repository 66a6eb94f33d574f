use vstd::prelude::*;

verus! {

/// The envelope of every reply: a success flag with either the data or an
/// error message.
#[derive(Clone, Debug)]
pub struct ApiResponse<T> {
    pub success: bool,
    pub data: Option<T>,
    pub error: Option<String>,
}

impl<T> ApiResponse<T> {
    /// A successful reply carrying `data`.
    pub fn success(data: T) -> (r: Self)
        ensures
            r.success,
            r.data == Some(data),
            r.error is None,
    {
        ApiResponse { success: true, data: Some(data), error: None }
    }

    /// A failed reply carrying `message` and no data.
    pub fn error(message: String) -> (r: ApiResponse<()>)
        ensures
            !r.success,
            r.data is None,
            r.error == Some(message),
    {
        ApiResponse { success: false, data: None, error: Some(message) }
    }
}

/// A fresh keypair: Base58 public key and Base58 64-byte secret.
#[derive(Clone, Debug)]
pub struct KeypairResponse {
    pub pubkey: String,
    pub secret: String,
}

/// Mint initialisation: Base58 authority and mint, and the decimals.
#[derive(Clone, Debug)]
pub struct CreateTokenRequest {
    pub mint_authority: String,
    pub mint: String,
    pub decimals: u8,
}

/// Minting: Base58 mint, destination and authority, and the amount.
#[derive(Clone, Debug)]
pub struct MintTokenRequest {
    pub mint: String,
    pub destination: String,
    pub authority: String,
    pub amount: u64,
}

/// One account of an instruction, its address in Base58.
#[derive(Clone, Debug)]
pub struct AccountMeta {
    pub pubkey: String,
    pub is_signer: bool,
    pub is_writable: bool,
}

/// An account's text form as (Base58 address, is signer, is writable).
pub type AccountMetaView = (Seq<char>, bool, bool);

impl View for AccountMeta {
    type V = AccountMetaView;

    open spec fn view(&self) -> AccountMetaView {
        (self.pubkey@, self.is_signer, self.is_writable)
    }
}

/// An instruction in text form: Base58 program id, the accounts in order,
/// and the data in Base64.
#[derive(Clone, Debug)]
pub struct InstructionResponse {
    pub program_id: String,
    pub accounts: Vec<AccountMeta>,
    pub instruction_data: String,
}

/// (program id, accounts, data) of an instruction in text form.
pub type InstructionResponseView = (Seq<char>, Seq<AccountMetaView>, Seq<char>);

impl View for InstructionResponse {
    type V = InstructionResponseView;

    open spec fn view(&self) -> InstructionResponseView {
        (self.program_id@, self.accounts@.map_values(|m: AccountMeta| m@), self.instruction_data@)
    }
}

/// A native transfer in text form: the accounts are listed by address only.
#[derive(Clone, Debug)]
pub struct SolTransferResponse {
    pub program_id: String,
    pub accounts: Vec<String>,
    pub instruction_data: String,
}

/// (program id, account addresses, data) of a native transfer in text form.
pub type SolTransferResponseView = (Seq<char>, Seq<Seq<char>>, Seq<char>);

impl View for SolTransferResponse {
    type V = SolTransferResponseView;

    open spec fn view(&self) -> SolTransferResponseView {
        (self.program_id@, self.accounts@.map_values(|a: String| a@), self.instruction_data@)
    }
}

/// Signing: the message text and the Base58 64-byte secret.
#[derive(Clone, Debug)]
pub struct SignMessageRequest {
    pub message: String,
    pub secret: String,
}

/// A signature in Base64, the signer's Base58 public key, and the message.
#[derive(Clone, Debug)]
pub struct SignMessageResponse {
    pub signature: String,
    pub public_key: String,
    pub message: String,
}

/// Verification: the message, the Base64 signature and the Base58 key.
#[derive(Clone, Debug)]
pub struct VerifyMessageRequest {
    pub message: String,
    pub signature: String,
    pub pubkey: String,
}

/// Whether the signature was valid, with the message and key echoed.
#[derive(Clone, Debug)]
pub struct VerifyMessageResponse {
    pub valid: bool,
    pub message: String,
    pub pubkey: String,
}

/// A native transfer: Base58 payer and payee, and the amount.
#[derive(Clone, Debug)]
pub struct SendSolRequest {
    pub from: String,
    pub to: String,
    pub lamports: u64,
}

/// A token transfer: Base58 destination, mint and owner, and the amount.
#[derive(Clone, Debug)]
pub struct SendTokenRequest {
    pub destination: String,
    pub mint: String,
    pub owner: String,
    pub amount: u64,
}

} // verus!
