use vstd::prelude::*;
use vstd::slice::slice_subrange;
use vstd::utf8::encode_utf8;

use crate::address::{is_address_text, parse_address};
use crate::codec::{
    base58_bytes, base58_decodes, base58_of, base64_bytes, base64_decodes, base64_of, from_base58,
    from_base64, to_base58, to_base64,
};
use crate::error::{AppError, ErrorKind};
use crate::instruction::{
    build_initialize_mint, build_mint_to, build_native_transfer, build_token_transfer,
    initialize_mint_layout, mint_to_layout, native_transfer_layout, token_transfer_layout,
    Instruction, InstructionView, RoleView,
};
use crate::models::{
    AccountMeta, AccountMetaView, CreateTokenRequest, InstructionResponse,
    InstructionResponseView, KeypairResponse, MintTokenRequest, SendSolRequest, SendTokenRequest,
    SignMessageRequest, SignMessageResponse, SolTransferResponse, SolTransferResponseView,
    VerifyMessageRequest, VerifyMessageResponse,
};
use crate::signing::{
    fresh_keypair, keypair_accepts, public_half, sign, signature_of, signature_valid, verify,
};

verus! {

/// An account role with its address in Base58.
pub open spec fn meta_text(m: RoleView) -> AccountMetaView {
    (base58_of(m.0), m.1, m.2)
}

/// An instruction in text form: Base58 program id and addresses, Base64 data.
pub open spec fn instruction_text(ix: InstructionView) -> InstructionResponseView {
    (base58_of(ix.0), ix.1.map_values(|m: RoleView| meta_text(m)), base64_of(ix.2))
}

/// A native transfer in text form: the accounts by Base58 address only.
pub open spec fn transfer_text(ix: InstructionView) -> SolTransferResponseView {
    (base58_of(ix.0), ix.1.map_values(|m: RoleView| base58_of(m.0)), base64_of(ix.2))
}

/// The error for the first of up to three address texts that is no address,
/// and `otherwise` when all of them are.
pub open spec fn first_address_error(ts: Seq<Seq<char>>, otherwise: ErrorKind) -> ErrorKind {
    if forall|i: int| 0 <= i < ts.len() ==> is_address_text(#[trigger] ts[i]) {
        otherwise
    } else {
        ErrorKind::InvalidAddress
    }
}

fn render_instruction(ix: &Instruction) -> (r: InstructionResponse)
    ensures
        r@ == instruction_text(ix@),
{
    let mut accounts: Vec<AccountMeta> = Vec::new();
    let mut i: usize = 0;
    while i < ix.accounts.len()
        invariant
            i <= ix.accounts@.len(),
            accounts@.len() == i,
            forall|j: int| 0 <= j < i ==> #[trigger] accounts@[j]@ == meta_text(ix.accounts@[j]@),
        decreases ix.accounts@.len() - i,
    {
        let a = &ix.accounts[i];
        accounts.push(
            AccountMeta {
                pubkey: a.address.to_base58(),
                is_signer: a.is_signer,
                is_writable: a.is_writable,
            },
        );
        i += 1;
    }
    let r = InstructionResponse {
        program_id: ix.program_id.to_base58(),
        accounts,
        instruction_data: to_base64(ix.data.as_slice()),
    };
    assert(r@.1 =~= instruction_text(ix@).1);
    r
}

fn render_transfer(ix: &Instruction) -> (r: SolTransferResponse)
    ensures
        r@ == transfer_text(ix@),
{
    let mut accounts: Vec<String> = Vec::new();
    let mut i: usize = 0;
    while i < ix.accounts.len()
        invariant
            i <= ix.accounts@.len(),
            accounts@.len() == i,
            forall|j: int| 0 <= j < i ==> #[trigger] accounts@[j]@ == base58_of(ix.accounts@[j]@.0),
        decreases ix.accounts@.len() - i,
    {
        accounts.push(ix.accounts[i].address.to_base58());
        i += 1;
    }
    let r = SolTransferResponse {
        program_id: ix.program_id.to_base58(),
        accounts,
        instruction_data: to_base64(ix.data.as_slice()),
    };
    assert(r@.1 =~= transfer_text(ix@).1);
    r
}

/// A fresh random keypair: the Base58 text of a 64-byte secret that signing
/// accepts, and of its public half.
pub fn generate_keypair() -> (r: KeypairResponse)
    ensures
        exists|s: Seq<u8>|
            s.len() == 64 && keypair_accepts(s) && r.secret@ == base58_of(s) && r.pubkey@
                == base58_of(public_half(s)),
{
    let secret = fresh_keypair();
    let pubkey = to_base58(slice_subrange(&secret, 32, 64));
    KeypairResponse { pubkey, secret: to_base58(&secret) }
}

/// The mint-initialisation instruction, in text form, for the request; the
/// mint authority is also the freeze authority.
pub fn create_token(payload: CreateTokenRequest) -> (r: Result<InstructionResponse, AppError>)
    ensures
        r is Ok <==> is_address_text(payload.mint_authority@) && is_address_text(payload.mint@)
            && payload.decimals <= 18,
        r matches Ok(resp) ==> resp@ == instruction_text(
            initialize_mint_layout(
                base58_bytes(payload.mint@),
                base58_bytes(payload.mint_authority@),
                Some(base58_bytes(payload.mint_authority@)),
                payload.decimals,
            ),
        ),
        r matches Err(e) ==> e.0 == first_address_error(
            seq![payload.mint_authority@, payload.mint@],
            ErrorKind::InvalidDecimals,
        ),
{
    let ghost ts = seq![payload.mint_authority@, payload.mint@];
    let mint_authority = match parse_address(payload.mint_authority.as_str()) {
        Ok(a) => a,
        Err(e) => {
            assert(!is_address_text(ts[0]));
            return Err(e);
        },
    };
    let mint = match parse_address(payload.mint.as_str()) {
        Ok(a) => a,
        Err(e) => {
            assert(!is_address_text(ts[1]));
            return Err(e);
        },
    };
    assert(forall|i: int| 0 <= i < ts.len() ==> is_address_text(#[trigger] ts[i]));
    match build_initialize_mint(&mint, &mint_authority, payload.decimals) {
        Ok(ix) => Ok(render_instruction(&ix)),
        Err(e) => Err(e),
    }
}

/// The mint-to instruction, in text form, for the request.
pub fn mint_token(payload: MintTokenRequest) -> (r: Result<InstructionResponse, AppError>)
    ensures
        r is Ok <==> is_address_text(payload.mint@) && is_address_text(payload.destination@)
            && is_address_text(payload.authority@) && payload.amount > 0,
        r matches Ok(resp) ==> resp@ == instruction_text(
            mint_to_layout(
                base58_bytes(payload.mint@),
                base58_bytes(payload.destination@),
                base58_bytes(payload.authority@),
                payload.amount,
            ),
        ),
        r matches Err(e) ==> e.0 == first_address_error(
            seq![payload.mint@, payload.destination@, payload.authority@],
            ErrorKind::InvalidAmount,
        ),
{
    let ghost ts = seq![payload.mint@, payload.destination@, payload.authority@];
    let mint = match parse_address(payload.mint.as_str()) {
        Ok(a) => a,
        Err(e) => {
            assert(!is_address_text(ts[0]));
            return Err(e);
        },
    };
    let destination = match parse_address(payload.destination.as_str()) {
        Ok(a) => a,
        Err(e) => {
            assert(!is_address_text(ts[1]));
            return Err(e);
        },
    };
    let authority = match parse_address(payload.authority.as_str()) {
        Ok(a) => a,
        Err(e) => {
            assert(!is_address_text(ts[2]));
            return Err(e);
        },
    };
    assert(forall|i: int| 0 <= i < ts.len() ==> is_address_text(#[trigger] ts[i]));
    match build_mint_to(&mint, &destination, &authority, payload.amount) {
        Ok(ix) => Ok(render_instruction(&ix)),
        Err(e) => Err(e),
    }
}

/// The native transfer, in text form, for the request: the payer signs and
/// both accounts are written.
pub fn send_sol(payload: SendSolRequest) -> (r: Result<SolTransferResponse, AppError>)
    ensures
        r is Ok <==> is_address_text(payload.from@) && is_address_text(payload.to@)
            && payload.lamports > 0,
        r matches Ok(resp) ==> resp@ == transfer_text(
            native_transfer_layout(
                base58_bytes(payload.from@),
                base58_bytes(payload.to@),
                payload.lamports,
            ),
        ),
        r matches Err(e) ==> e.0 == first_address_error(
            seq![payload.from@, payload.to@],
            ErrorKind::InvalidAmount,
        ),
{
    let ghost ts = seq![payload.from@, payload.to@];
    let from = match parse_address(payload.from.as_str()) {
        Ok(a) => a,
        Err(e) => {
            assert(!is_address_text(ts[0]));
            return Err(e);
        },
    };
    let to = match parse_address(payload.to.as_str()) {
        Ok(a) => a,
        Err(e) => {
            assert(!is_address_text(ts[1]));
            return Err(e);
        },
    };
    assert(forall|i: int| 0 <= i < ts.len() ==> is_address_text(#[trigger] ts[i]));
    match build_native_transfer(&from, &to, payload.lamports) {
        Ok(ix) => Ok(render_transfer(&ix)),
        Err(e) => Err(e),
    }
}

/// The token transfer, in text form, for the request. The owner's address
/// stands both as the source token account and as the signing authority;
/// the mint is checked to be an address and not used otherwise.
pub fn send_token(payload: SendTokenRequest) -> (r: Result<InstructionResponse, AppError>)
    ensures
        r is Ok <==> is_address_text(payload.mint@) && is_address_text(payload.destination@)
            && is_address_text(payload.owner@) && payload.amount > 0,
        r matches Ok(resp) ==> resp@ == instruction_text(
            token_transfer_layout(
                base58_bytes(payload.owner@),
                base58_bytes(payload.destination@),
                base58_bytes(payload.owner@),
                payload.amount,
            ),
        ),
        r matches Err(e) ==> e.0 == first_address_error(
            seq![payload.mint@, payload.destination@, payload.owner@],
            ErrorKind::InvalidAmount,
        ),
{
    let ghost ts = seq![payload.mint@, payload.destination@, payload.owner@];
    match parse_address(payload.mint.as_str()) {
        Ok(_) => {},
        Err(e) => {
            assert(!is_address_text(ts[0]));
            return Err(e);
        },
    }
    let destination = match parse_address(payload.destination.as_str()) {
        Ok(a) => a,
        Err(e) => {
            assert(!is_address_text(ts[1]));
            return Err(e);
        },
    };
    let owner = match parse_address(payload.owner.as_str()) {
        Ok(a) => a,
        Err(e) => {
            assert(!is_address_text(ts[2]));
            return Err(e);
        },
    };
    assert(forall|i: int| 0 <= i < ts.len() ==> is_address_text(#[trigger] ts[i]));
    match build_token_transfer(&owner, &destination, &owner, payload.amount) {
        Ok(ix) => Ok(render_instruction(&ix)),
        Err(e) => Err(e),
    }
}

/// Signs the UTF-8 bytes of the message with the Base58 secret. Text that
/// is not Base58 fails with `InvalidEncoding`; a secret that is not a 64-byte
/// keypair fails with `InvalidKeyMaterial`. The reply holds the Base64
/// signature, the Base58 public half of the secret, and the message.
pub fn sign_message(payload: SignMessageRequest) -> (r: Result<SignMessageResponse, AppError>)
    ensures
        r is Ok <==> base58_decodes(payload.secret@) && base58_bytes(payload.secret@).len() == 64
            && keypair_accepts(base58_bytes(payload.secret@)),
        r matches Ok(resp) ==> resp.signature@ == base64_of(
            signature_of(base58_bytes(payload.secret@), encode_utf8(payload.message@)),
        ),
        r matches Ok(resp) ==> resp.public_key@ == base58_of(
            public_half(base58_bytes(payload.secret@)),
        ),
        r matches Ok(resp) ==> signature_valid(
            signature_of(base58_bytes(payload.secret@), encode_utf8(payload.message@)),
            encode_utf8(payload.message@),
            public_half(base58_bytes(payload.secret@)),
        ),
        r matches Ok(resp) ==> resp.message@ == payload.message@,
        r matches Err(e) ==> e.0 == (if base58_decodes(payload.secret@) {
            ErrorKind::InvalidKeyMaterial
        } else {
            ErrorKind::InvalidEncoding
        }),
{
    let secret = match from_base58(payload.secret.as_str()) {
        Ok(v) => v,
        Err(e) => return Err(e),
    };
    let signature = match sign(payload.message.as_str().as_bytes(), secret.as_slice()) {
        Ok(sig) => sig,
        Err(e) => return Err(e),
    };
    let public_key = to_base58(slice_subrange(secret.as_slice(), 32, 64));
    Ok(
        SignMessageResponse {
            signature: to_base64(signature.as_slice()),
            public_key,
            message: payload.message,
        },
    )
}

/// Checks the Base64 signature over the UTF-8 bytes of the message under the
/// Base58 key. A key that is no address fails with `InvalidAddress`, a
/// signature that is not Base64 with `InvalidEncoding`, and one that is not
/// 64 bytes with `InvalidInputLength`; a wrong signature is `valid: false`.
pub fn verify_message(payload: VerifyMessageRequest) -> (r: Result<VerifyMessageResponse, AppError>)
    ensures
        r is Ok <==> is_address_text(payload.pubkey@) && base64_decodes(payload.signature@)
            && base64_bytes(payload.signature@).len() == 64,
        r matches Ok(resp) ==> resp.valid == signature_valid(
            base64_bytes(payload.signature@),
            encode_utf8(payload.message@),
            base58_bytes(payload.pubkey@),
        ),
        r matches Ok(resp) ==> resp.message@ == payload.message@ && resp.pubkey@
            == payload.pubkey@,
        r matches Err(e) ==> e.0 == (if !is_address_text(payload.pubkey@) {
            ErrorKind::InvalidAddress
        } else if !base64_decodes(payload.signature@) {
            ErrorKind::InvalidEncoding
        } else {
            ErrorKind::InvalidInputLength
        }),
{
    let pubkey = match parse_address(payload.pubkey.as_str()) {
        Ok(a) => a,
        Err(e) => return Err(e),
    };
    let signature = match from_base64(payload.signature.as_str()) {
        Ok(v) => v,
        Err(e) => return Err(e),
    };
    let valid = match verify(
        signature.as_slice(),
        payload.message.as_str().as_bytes(),
        &pubkey.bytes,
    ) {
        Ok(b) => b,
        Err(e) => return Err(e),
    };
    Ok(VerifyMessageResponse { valid, message: payload.message, pubkey: payload.pubkey })
}

} // verus!
