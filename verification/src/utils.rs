//! Identifier conversion and number formatting.

use crate::text::{decimal, decimal_of};
use vstd::prelude::*;

verus! {

/// The signed reading of an unsigned 64-bit identifier: the same bits, taken as two's complement.
pub open spec fn db_id_of(id: u64) -> i64 {
    if id < 0x8000_0000_0000_0000u64 {
        id as i64
    } else {
        (id - 0x1_0000_0000_0000_0000int) as i64
    }
}

/// The unsigned reading of a stored identifier: the inverse of [`db_id_of`].
pub open spec fn platform_id_of(id: i64) -> u64 {
    if id >= 0 {
        id as u64
    } else {
        (id + 0x1_0000_0000_0000_0000int) as u64
    }
}

/// The two readings are inverse to each other.
pub proof fn lemma_id_round_trip(id: u64, stored: i64)
    ensures
        platform_id_of(db_id_of(id)) == id,
        db_id_of(platform_id_of(stored)) == stored,
        (db_id_of(id) == 0) == (id == 0),
{
}

/// Converts a platform identifier into the signed form that the tables store.
pub fn to_db_id(id: u64) -> (stored: i64)
    ensures
        stored == db_id_of(id),
{
    let stored: i64 = id as i64;
    assert(id < 0x8000_0000_0000_0000u64 ==> (id as i64) as int == id as int) by (bit_vector);
    assert(id >= 0x8000_0000_0000_0000u64 ==> (id as i64) as int == id as int
        - 0x1_0000_0000_0000_0000int) by (bit_vector);
    stored
}

/// Converts a stored identifier back into the platform's unsigned form.
pub fn from_db_id(stored: i64) -> (id: u64)
    ensures
        id == platform_id_of(stored),
{
    let id: u64 = stored as u64;
    assert(stored >= 0i64 ==> (stored as u64) as int == stored as int) by (bit_vector);
    assert(stored < 0i64 ==> (stored as u64) as int == stored as int + 0x1_0000_0000_0000_0000int)
        by (bit_vector);
    id
}

/// Whether a thousands separator stands before the character at `at`: never before the first
/// character or a minus sign, and only where the characters from `at` on are a multiple of three.
pub open spec fn separator_before(written: Seq<char>, at: int) -> bool {
    at > 0 && (written.len() - at) % 3 == 0 && written[at] != '-'
}

/// The first `upto` characters of `written`, each preceded by a comma where
/// [`separator_before`] says so.
pub open spec fn grouped_prefix(written: Seq<char>, upto: nat) -> Seq<char>
    decreases upto,
{
    if upto == 0 {
        Seq::<char>::empty()
    } else {
        let at = (upto - 1) as int;
        let before = grouped_prefix(written, (upto - 1) as nat);
        if separator_before(written, at) {
            before.push(',').push(written[at])
        } else {
            before.push(written[at])
        }
    }
}

/// `written` with commas between its groups of three characters, counted from the right.
pub open spec fn grouped(written: Seq<char>) -> Seq<char> {
    grouped_prefix(written, written.len())
}

/// The decimal writing of `n` with a comma before every group of three digits.
pub fn format_number(n: i64) -> (out: String)
    ensures
        out@ == grouped(decimal(n as int)),
{
    let written = decimal_of(n);
    let len = written.len();
    let mut out = String::new();
    let mut i: usize = 0;
    while i < len
        invariant
            i <= len,
            len == written.len(),
            out@ == grouped_prefix(written@, i as nat),
        decreases len - i,
    {
        let c = written[i];
        if i > 0 && (len - i) % 3 == 0 && c != '-' {
            out.push(',');
        }
        out.push(c);
        i += 1;
    }
    out
}

} // verus!
