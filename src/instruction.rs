use solana_sdk::pubkey::Pubkey;
use spl_token::solana_program::program_error::ProgramError;
use vstd::arithmetic::power::pow;
use vstd::prelude::*;

use crate::address::Address;
use crate::error::{AppError, ErrorKind};

verus! {

/// One account's role in an instruction.
#[derive(Clone, Copy, Debug)]
pub struct AccountRole {
    pub address: Address,
    pub is_signer: bool,
    pub is_writable: bool,
}

/// An account role as (address, is signer, is writable).
pub type RoleView = (Seq<u8>, bool, bool);

impl View for AccountRole {
    type V = RoleView;

    open spec fn view(&self) -> RoleView {
        (self.address@, self.is_signer, self.is_writable)
    }
}

/// A ledger instruction: the program that runs it, the accounts it touches
/// in the order the program expects them, and its data bytes.
#[derive(Clone, Debug)]
pub struct Instruction {
    pub program_id: Address,
    pub accounts: Vec<AccountRole>,
    pub data: Vec<u8>,
}

/// An instruction as (program id, account roles, data).
pub type InstructionView = (Seq<u8>, Seq<RoleView>, Seq<u8>);

impl View for Instruction {
    type V = InstructionView;

    open spec fn view(&self) -> InstructionView {
        (self.program_id@, self.accounts@.map_values(|m: AccountRole| m@), self.data@)
    }
}

/// The system program: 32 zero bytes.
pub open spec fn system_program_id() -> Seq<u8> {
    Seq::new(32, |i: int| 0u8)
}

/// The token program, `TokenkegQfeZyiNwAJbNbGKPFXCWuBvf9Ss623VQ5DA`.
pub open spec fn token_program_id() -> Seq<u8> {
    seq![
        6u8, 221, 246, 225, 215, 101, 161, 147, 217, 203, 225, 70, 206, 235, 121, 172, 28, 180,
        133, 237, 95, 91, 55, 145, 58, 140, 245, 133, 126, 255, 0, 169,
    ]
}

/// The rent sysvar, `SysvarRent111111111111111111111111111111111`.
pub open spec fn rent_sysvar_id() -> Seq<u8> {
    seq![
        6u8, 167, 213, 23, 25, 44, 92, 81, 33, 140, 201, 76, 61, 74, 241, 127, 88, 218, 238, 8,
        155, 161, 253, 68, 227, 219, 217, 138, 0, 0, 0, 0,
    ]
}

/// The eight little-endian bytes of `n`.
pub open spec fn u64_le(n: u64) -> Seq<u8> {
    Seq::new(8, |i: int| ((n as int / pow(256, i as nat)) % 256) as u8)
}

/// A native transfer: the payer signs and is debited, the payee is
/// credited; the data is the 4-byte little-endian tag 2 and the amount.
pub open spec fn native_transfer_layout(from: Seq<u8>, to: Seq<u8>, lamports: u64) -> InstructionView {
    (
        system_program_id(),
        seq![(from, true, true), (to, false, true)],
        seq![2u8, 0, 0, 0] + u64_le(lamports),
    )
}

/// The freeze-authority field: a flag byte, then the key when there is one.
pub open spec fn optional_key(key: Option<Seq<u8>>) -> Seq<u8> {
    match key {
        Some(k) => seq![1u8] + k,
        None => seq![0u8],
    }
}

/// Token-program mint initialisation: the mint, then the rent sysvar; the
/// data is tag 0, the decimals, the mint authority and the optional freeze
/// authority.
pub open spec fn initialize_mint_layout(
    mint: Seq<u8>,
    authority: Seq<u8>,
    freeze: Option<Seq<u8>>,
    decimals: u8,
) -> InstructionView {
    (
        token_program_id(),
        seq![(mint, false, true), (rent_sysvar_id(), false, false)],
        seq![0u8, decimals] + authority + optional_key(freeze),
    )
}

/// Token-program mint-to: mint and destination are written, the single
/// authority signs; the data is tag 7 and the amount.
pub open spec fn mint_to_layout(mint: Seq<u8>, destination: Seq<u8>, authority: Seq<u8>, amount: u64) -> InstructionView {
    (
        token_program_id(),
        seq![(mint, false, true), (destination, false, true), (authority, true, false)],
        seq![7u8] + u64_le(amount),
    )
}

/// Token-program transfer: source and destination are written, the single
/// authority signs; the data is tag 3 and the amount.
pub open spec fn token_transfer_layout(
    source: Seq<u8>,
    destination: Seq<u8>,
    authority: Seq<u8>,
    amount: u64,
) -> InstructionView {
    (
        token_program_id(),
        seq![(source, false, true), (destination, false, true), (authority, true, false)],
        seq![3u8] + u64_le(amount),
    )
}

/// `ProgramError`, carried opaquely as the failure of a token-program builder.
#[verifier::external_type_specification]
#[verifier::external_body]
pub struct ExProgramError(ProgramError);

/// Relies on `system_instruction::transfer`: the system program, the payer as
/// writable signer and the payee as writable, and the bincode form of
/// `SystemInstruction::Transfer` (variant index 2 as a little-endian u32,
/// then the amount as a little-endian u64).
#[verifier::external_body]
fn system_transfer(from: &Address, to: &Address, lamports: u64) -> (r: Instruction)
    ensures
        r@ == native_transfer_layout(from@, to@, lamports),
{
    let from = Pubkey::new_from_array(from.bytes);
    let ix = solana_sdk::system_instruction::transfer(&from, &Pubkey::new_from_array(to.bytes), lamports);
    Instruction {
        program_id: Address { bytes: ix.program_id.to_bytes() },
        accounts: ix.accounts.iter().map(|m| AccountRole { address: Address { bytes: m.pubkey.to_bytes() }, is_signer: m.is_signer, is_writable: m.is_writable }).collect(),
        data: ix.data,
    }
}

/// Relies on `spl_token::instruction::initialize_mint`, called with the token
/// program's own id, which it accepts: accounts and data as the source packs
/// them (`TokenInstruction::InitializeMint`).
#[verifier::external_body]
fn token_initialize_mint(mint: &Address, authority: &Address, freeze: Option<Address>, decimals: u8) -> (r: Result<Instruction, ProgramError>)
    ensures
        r is Ok,
        r matches Ok(ix) ==> ix@ == initialize_mint_layout(mint@, authority@, match freeze { Some(f) => Some(f@), None => None }, decimals),
{
    let freeze = freeze.map(|f| Pubkey::new_from_array(f.bytes));
    let ix = spl_token::instruction::initialize_mint(&spl_token::ID, &Pubkey::new_from_array(mint.bytes), &Pubkey::new_from_array(authority.bytes), freeze.as_ref(), decimals)?;
    Ok(Instruction {
        program_id: Address { bytes: ix.program_id.to_bytes() },
        accounts: ix.accounts.iter().map(|m| AccountRole { address: Address { bytes: m.pubkey.to_bytes() }, is_signer: m.is_signer, is_writable: m.is_writable }).collect(),
        data: ix.data,
    })
}

/// Relies on `spl_token::instruction::mint_to`, called with the token
/// program's own id and no multisignature signers, so the authority signs.
#[verifier::external_body]
fn token_mint_to(mint: &Address, destination: &Address, authority: &Address, amount: u64) -> (r: Result<Instruction, ProgramError>)
    ensures
        r is Ok,
        r matches Ok(ix) ==> ix@ == mint_to_layout(mint@, destination@, authority@, amount),
{
    let (m, d) = (Pubkey::new_from_array(mint.bytes), Pubkey::new_from_array(destination.bytes));
    let ix = spl_token::instruction::mint_to(&spl_token::ID, &m, &d, &Pubkey::new_from_array(authority.bytes), &[], amount)?;
    Ok(Instruction {
        program_id: Address { bytes: ix.program_id.to_bytes() },
        accounts: ix.accounts.iter().map(|m| AccountRole { address: Address { bytes: m.pubkey.to_bytes() }, is_signer: m.is_signer, is_writable: m.is_writable }).collect(),
        data: ix.data,
    })
}

/// Relies on `spl_token::instruction::transfer`, called with the token
/// program's own id and no multisignature signers, so the authority signs.
#[verifier::external_body]
fn token_transfer(source: &Address, destination: &Address, authority: &Address, amount: u64) -> (r: Result<Instruction, ProgramError>)
    ensures
        r is Ok,
        r matches Ok(ix) ==> ix@ == token_transfer_layout(source@, destination@, authority@, amount),
{
    let (s, d) = (Pubkey::new_from_array(source.bytes), Pubkey::new_from_array(destination.bytes));
    let ix = spl_token::instruction::transfer(&spl_token::ID, &s, &d, &Pubkey::new_from_array(authority.bytes), &[], amount)?;
    Ok(Instruction {
        program_id: Address { bytes: ix.program_id.to_bytes() },
        accounts: ix.accounts.iter().map(|m| AccountRole { address: Address { bytes: m.pubkey.to_bytes() }, is_signer: m.is_signer, is_writable: m.is_writable }).collect(),
        data: ix.data,
    })
}

/// A native-currency transfer of `lamports` from `from` to `to`. A zero
/// amount is refused with `InvalidAmount`.
pub fn build_native_transfer(from: &Address, to: &Address, lamports: u64) -> (r: Result<Instruction, AppError>)
    ensures
        r is Ok <==> lamports > 0,
        r matches Ok(ix) ==> ix@ == native_transfer_layout(from@, to@, lamports),
        r matches Err(e) ==> e.0 == ErrorKind::InvalidAmount,
{
    if lamports == 0 {
        return Err(AppError(ErrorKind::InvalidAmount));
    }
    Ok(system_transfer(from, to, lamports))
}

/// Initialisation of `mint` with `decimals` places, `authority` as mint
/// authority and, by this library's policy, as freeze authority too. More
/// than 18 decimals is refused with `InvalidDecimals`.
pub fn build_initialize_mint(mint: &Address, authority: &Address, decimals: u8) -> (r: Result<Instruction, AppError>)
    ensures
        r is Ok <==> decimals <= 18,
        r matches Ok(ix) ==> ix@ == initialize_mint_layout(mint@, authority@, Some(authority@), decimals),
        r matches Err(e) ==> e.0 == ErrorKind::InvalidDecimals,
{
    if decimals > 18 {
        return Err(AppError(ErrorKind::InvalidDecimals));
    }
    match token_initialize_mint(mint, authority, Some(*authority), decimals) {
        Ok(ix) => Ok(ix),
        Err(_) => Err(AppError(ErrorKind::ProgramRejected)),
    }
}

/// Minting `amount` new tokens of `mint` into `destination`, signed by
/// `authority`. A zero amount is refused with `InvalidAmount`.
pub fn build_mint_to(mint: &Address, destination: &Address, authority: &Address, amount: u64) -> (r: Result<Instruction, AppError>)
    ensures
        r is Ok <==> amount > 0,
        r matches Ok(ix) ==> ix@ == mint_to_layout(mint@, destination@, authority@, amount),
        r matches Err(e) ==> e.0 == ErrorKind::InvalidAmount,
{
    if amount == 0 {
        return Err(AppError(ErrorKind::InvalidAmount));
    }
    match token_mint_to(mint, destination, authority, amount) {
        Ok(ix) => Ok(ix),
        Err(_) => Err(AppError(ErrorKind::ProgramRejected)),
    }
}

/// Moving `amount` tokens from `source` to `destination`, signed by
/// `authority`. A zero amount is refused with `InvalidAmount`.
pub fn build_token_transfer(source: &Address, destination: &Address, authority: &Address, amount: u64) -> (r: Result<Instruction, AppError>)
    ensures
        r is Ok <==> amount > 0,
        r matches Ok(ix) ==> ix@ == token_transfer_layout(source@, destination@, authority@, amount),
        r matches Err(e) ==> e.0 == ErrorKind::InvalidAmount,
{
    if amount == 0 {
        return Err(AppError(ErrorKind::InvalidAmount));
    }
    match token_transfer(source, destination, authority, amount) {
        Ok(ix) => Ok(ix),
        Err(_) => Err(AppError(ErrorKind::ProgramRejected)),
    }
}

/// Two instructions agree byte for byte: the same program id, the same
/// accounts with the same flags in the same order, and the same data.
pub open spec fn same_instruction(a: Instruction, b: Instruction) -> bool {
    &&& a.program_id@ == b.program_id@
    &&& a.data@ == b.data@
    &&& a.accounts@.len() == b.accounts@.len()
    &&& forall|i: int|
        0 <= i < a.accounts@.len() ==> (#[trigger] a.accounts@[i])@ == b.accounts@[i]@
}

/// Building is deterministic: two instructions that each meet one builder's
/// contract for the same inputs agree byte for byte, for each of the four
/// kinds.
pub proof fn lemma_builds_deterministic(
    a: Instruction,
    b: Instruction,
    x: Seq<u8>,
    y: Seq<u8>,
    z: Seq<u8>,
    amount: u64,
    decimals: u8,
)
    ensures
        a@ == native_transfer_layout(x, y, amount) && b@ == native_transfer_layout(x, y, amount)
            ==> same_instruction(a, b),
        a@ == initialize_mint_layout(x, y, Some(y), decimals) && b@ == initialize_mint_layout(
            x,
            y,
            Some(y),
            decimals,
        ) ==> same_instruction(a, b),
        a@ == mint_to_layout(x, y, z, amount) && b@ == mint_to_layout(x, y, z, amount)
            ==> same_instruction(a, b),
        a@ == token_transfer_layout(x, y, z, amount) && b@ == token_transfer_layout(x, y, z, amount)
            ==> same_instruction(a, b),
{
    if a@ == b@ {
        let ra = a.accounts@.map_values(|m: AccountRole| m@);
        let rb = b.accounts@.map_values(|m: AccountRole| m@);
        assert(ra.len() == a.accounts@.len() && rb.len() == b.accounts@.len());
        assert forall|i: int| 0 <= i < a.accounts@.len() implies (#[trigger] a.accounts@[i])@
            == b.accounts@[i]@ by {
            assert(ra[i] == a.accounts@[i]@ && rb[i] == b.accounts@[i]@);
        }
    }
}

} // verus!
