//! The listing fingerprint: a deterministic non-cryptographic digest
//! over an ordered account snapshot, rendered as a quoted hexadecimal
//! string and used as a cache validator for the listing endpoint.

use vstd::prelude::*;
use crate::account::Account;

verus! {

/// Offset basis of the 64-bit FNV-1a accumulator.
pub const FNV_OFFSET_BASIS: u64 = 0xcbf29ce484222325;

/// Multiplier of the 64-bit FNV-1a accumulator.
pub const FNV_PRIME: u64 = 0x100000001b3;

/// Fed into the accumulator after each field; lies above every char
/// code point, so field boundaries cannot be mistaken for text.
pub const FIELD_MARK: u64 = 0x110000;

/// One FNV-1a accumulator step.
pub open spec fn fnv_step(h: u64, v: u64) -> u64 {
    (h ^ v).wrapping_mul(FNV_PRIME)
}

/// The accumulator after feeding a text, character by character.
pub open spec fn fnv_chars(h: u64, s: Seq<char>) -> u64
    decreases s.len(),
{
    if s.len() == 0 {
        h
    } else {
        fnv_step(fnv_chars(h, s.drop_last()), s.last() as u64)
    }
}

/// The accumulator after feeding one field: its text, then the mark.
pub open spec fn fnv_field(h: u64, s: Seq<char>) -> u64 {
    fnv_step(fnv_chars(h, s), FIELD_MARK)
}

/// The accumulator after feeding one account: id, username and email,
/// in that order.  The password takes no part in the fingerprint.
pub open spec fn fnv_account(h: u64, a: Account) -> u64 {
    fnv_field(fnv_field(fnv_field(h, a.id@), a.username@), a.email@)
}

/// The accumulator after feeding a snapshot in order.
pub open spec fn fnv_accounts(h: u64, s: Seq<Account>) -> u64
    decreases s.len(),
{
    if s.len() == 0 {
        h
    } else {
        fnv_account(fnv_accounts(h, s.drop_last()), s.last())
    }
}

/// The fingerprint of an ordered account snapshot: a pure function of
/// the ordered (id, username, email) tuples, so identical snapshots
/// always fingerprint identically.
pub open spec fn spec_fingerprint(s: Seq<Account>) -> u64 {
    fnv_accounts(FNV_OFFSET_BASIS, s)
}

fn fnv_str(h0: u64, s: &str) -> (r: u64)
    ensures
        r == fnv_chars(h0, s@),
{
    let n = s.unicode_len();
    let mut h = h0;
    let mut i: usize = 0;
    while i < n
        invariant
            n == s@.len(),
            0 <= i <= n,
            h == fnv_chars(h0, s@.take(i as int)),
        decreases n - i,
    {
        let c = s.get_char(i);
        h = (h ^ (c as u64)).wrapping_mul(FNV_PRIME);
        proof {
            assert(s@.take(i + 1).drop_last() =~= s@.take(i as int));
            assert(s@.take(i + 1).last() == s@[i as int]);
        }
        i += 1;
    }
    proof {
        assert(s@.take(n as int) =~= s@);
    }
    h
}

fn fnv_one_field(h: u64, s: &str) -> (r: u64)
    ensures
        r == fnv_field(h, s@),
{
    let x = fnv_str(h, s);
    (x ^ FIELD_MARK).wrapping_mul(FNV_PRIME)
}

/// The fingerprint of a snapshot, exactly as `spec_fingerprint` folds it.
pub fn fingerprint(accounts: &Vec<Account>) -> (r: u64)
    ensures
        r == spec_fingerprint(accounts@),
{
    let n = accounts.len();
    let mut h = FNV_OFFSET_BASIS;
    let mut i: usize = 0;
    while i < n
        invariant
            n == accounts@.len(),
            0 <= i <= n,
            h == fnv_accounts(FNV_OFFSET_BASIS, accounts@.take(i as int)),
        decreases n - i,
    {
        let a = &accounts[i];
        h = fnv_one_field(h, a.id.as_str());
        h = fnv_one_field(h, a.username.as_str());
        h = fnv_one_field(h, a.email.as_str());
        proof {
            assert(accounts@.take(i + 1).drop_last() =~= accounts@.take(i as int));
            assert(accounts@.take(i + 1).last() == accounts@[i as int]);
        }
        i += 1;
    }
    proof {
        assert(accounts@.take(n as int) =~= accounts@);
    }
    h
}

/// The hexadecimal digit for a value below sixteen.
pub open spec fn spec_hex_digit(d: int) -> char {
    if d == 0 { '0' }
    else if d == 1 { '1' }
    else if d == 2 { '2' }
    else if d == 3 { '3' }
    else if d == 4 { '4' }
    else if d == 5 { '5' }
    else if d == 6 { '6' }
    else if d == 7 { '7' }
    else if d == 8 { '8' }
    else if d == 9 { '9' }
    else if d == 10 { 'a' }
    else if d == 11 { 'b' }
    else if d == 12 { 'c' }
    else if d == 13 { 'd' }
    else if d == 14 { 'e' }
    else { 'f' }
}

/// Lowercase hexadecimal rendering without leading zeroes, most
/// significant digit first.
pub open spec fn spec_hex(n: int) -> Seq<char>
    decreases n,
{
    if n < 16 {
        seq![spec_hex_digit(n)]
    } else {
        spec_hex(n / 16).push(spec_hex_digit(n % 16))
    }
}

fn hex_digit_str(d: u64) -> (r: &'static str)
    requires
        d < 16,
    ensures
        r@ =~= seq![spec_hex_digit(d as int)],
{
    proof {
        reveal_strlit("0");
        reveal_strlit("1");
        reveal_strlit("2");
        reveal_strlit("3");
        reveal_strlit("4");
        reveal_strlit("5");
        reveal_strlit("6");
        reveal_strlit("7");
        reveal_strlit("8");
        reveal_strlit("9");
        reveal_strlit("a");
        reveal_strlit("b");
        reveal_strlit("c");
        reveal_strlit("d");
        reveal_strlit("e");
        reveal_strlit("f");
    }
    match d {
        0 => "0",
        1 => "1",
        2 => "2",
        3 => "3",
        4 => "4",
        5 => "5",
        6 => "6",
        7 => "7",
        8 => "8",
        9 => "9",
        10 => "a",
        11 => "b",
        12 => "c",
        13 => "d",
        14 => "e",
        _ => "f",
    }
}

fn hex_string(n: u64) -> (r: String)
    ensures
        r@ == spec_hex(n as int),
    decreases n,
{
    if n < 16 {
        hex_digit_str(n).to_owned()
    } else {
        let prefix = hex_string(n / 16);
        let digit = hex_digit_str(n % 16);
        let r = prefix.concat(digit);
        proof {
            assert(r@ =~= spec_hex(n as int));
        }
        r
    }
}

/// The cache-validator text for a snapshot: its fingerprint in
/// lowercase hexadecimal between double quotes.
pub open spec fn spec_etag(s: Seq<Account>) -> Seq<char> {
    seq!['"'] + spec_hex(spec_fingerprint(s) as int) + seq!['"']
}

/// Renders the validator for a snapshot: its fingerprint, quoted, in
/// lowercase hexadecimal.
pub fn compute_etag(accounts: &Vec<Account>) -> (r: String)
    ensures
        r@ == spec_etag(accounts@),
{
    let fp = fingerprint(accounts);
    let hex = hex_string(fp);
    let quote = "\"";
    proof {
        reveal_strlit("\"");
        assert(quote@ =~= seq!['"']);
    }
    let r = quote.to_owned().concat(hex.as_str()).concat(quote);
    proof {
        assert(r@ =~= spec_etag(accounts@));
    }
    r
}

/// The fingerprint is a function of the ordered (id, username, email)
/// tuples alone: snapshots that agree on those, in the same order,
/// fingerprint identically, whatever their password digests hold.  In
/// particular two reads of an unchanged snapshot always yield the same
/// validator.
pub proof fn lemma_fingerprint_deterministic(a: Seq<Account>, b: Seq<Account>)
    requires
        a.len() == b.len(),
        forall|i: int| 0 <= i < a.len() ==> crate::account::same_public_fields(a[i], b[i]),
    ensures
        spec_etag(a) == spec_etag(b),
{
    lemma_fnv_accounts_public_fields(FNV_OFFSET_BASIS, a, b);
}

proof fn lemma_fnv_accounts_public_fields(h: u64, a: Seq<Account>, b: Seq<Account>)
    requires
        a.len() == b.len(),
        forall|i: int| 0 <= i < a.len() ==> crate::account::same_public_fields(a[i], b[i]),
    ensures
        fnv_accounts(h, a) == fnv_accounts(h, b),
    decreases a.len(),
{
    if a.len() > 0 {
        lemma_fnv_accounts_public_fields(h, a.drop_last(), b.drop_last());
        assert(crate::account::same_public_fields(a.last(), b.last()));
    }
}

} // verus!
