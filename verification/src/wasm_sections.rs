//! The section layout of a WebAssembly binary: after the 8-byte header, a
//! sequence of sections, each an id byte, a LEB128 size and that many bytes
//! of content. The library reads it only to tell whether a module declares
//! a start function (section id 8).

use vstd::prelude::*;

verus! {

/// Id of the start section.
pub const START_SECTION_ID: u8 = 8;

/// `128^n`.
pub open spec fn pow128(n: nat) -> int
    decreases n,
{
    if n == 0 {
        1
    } else {
        128 * pow128((n - 1) as nat)
    }
}

/// Unsigned LEB128 decoding of the bytes from `pos + k` on, at most `5 - k`
/// of them: the value they encode and the position just after the last one,
/// or `None` when the bytes run out or a fifth byte still continues.
pub open spec fn leb128_tail(b: Seq<u8>, pos: int, k: nat) -> Option<(int, int)>
    decreases 5 - k,
{
    if k >= 5 || pos + k < 0 || pos + k >= b.len() {
        None
    } else if b[pos + k] < 128 {
        Some((b[pos + k] as int, pos + k + 1))
    } else {
        match leb128_tail(b, pos, k + 1) {
            None => None,
            Some((v, next)) => Some(((b[pos + k] - 128) + 128 * v, next)),
        }
    }
}

/// The unsigned LEB128 number that starts at `pos`, with the position after it.
pub open spec fn leb128_at(b: Seq<u8>, pos: int) -> Option<(int, int)> {
    leb128_tail(b, pos, 0)
}

/// A decoded number lies past its first byte and is not negative.
pub proof fn lemma_leb128_tail_bounds(b: Seq<u8>, pos: int, k: nat)
    ensures
        leb128_tail(b, pos, k) matches Some((v, next)) ==> next > pos + k && next <= b.len()
            && 0 <= v < pow128((5 - k) as nat),
    decreases 5 - k,
{
    if k < 5 && 0 <= pos + k < b.len() && b[pos + k] >= 128 {
        lemma_leb128_tail_bounds(b, pos, k + 1);
        if let Some((v, next)) = leb128_tail(b, pos, k + 1) {
            assert(pow128((5 - k) as nat) == 128 * pow128((5 - (k + 1)) as nat));
            assert((b[pos + k] - 128) + 128 * v < 128 * pow128((5 - (k + 1)) as nat)) by (nonlinear_arith)
                requires
                    0 <= b[pos + k] - 128 < 128,
                    0 <= v < pow128((5 - (k + 1)) as nat),
            ;
        }
    } else if k < 5 && 0 <= pos + k < b.len() {
        assert(pow128((5 - k) as nat) >= 128) by {
            lemma_pow128_positive((5 - k - 1) as nat);
        }
    }
}

/// Powers of 128 are at least 1.
pub proof fn lemma_pow128_positive(n: nat)
    ensures
        pow128(n) >= 1,
        pow128(n + 1) >= 128,
    decreases n,
{
    if n > 0 {
        lemma_pow128_positive((n - 1) as nat);
    }
}

/// Some section from `pos` on has the start id, walking section by section.
pub open spec fn start_section_from(b: Seq<u8>, pos: int) -> bool
    decreases b.len() - pos,
{
    if pos < 0 || pos >= b.len() {
        false
    } else {
        match leb128_at(b, pos + 1) {
            None => false,
            Some((size, next)) => if b[pos] == START_SECTION_ID {
                true
            } else if next + size <= b.len() {
                proof {
                    lemma_leb128_tail_bounds(b, pos + 1, 0);
                }
                start_section_from(b, next + size)
            } else {
                false
            },
        }
    }
}

/// The module's sections, read after the header, include a start section.
pub open spec fn declares_start(b: Seq<u8>) -> bool {
    start_section_from(b, 8)
}

/// Decodes an unsigned LEB128 number from `pos + k` on.
fn read_leb128_tail(b: &[u8], pos: usize, k: usize) -> (r: Option<(u64, usize)>)
    requires
        k <= 5,
    ensures
        match (r, leb128_tail(b@, pos as int, k as nat)) {
            (Some((v, n)), Some((sv, sn))) => v == sv && n == sn,
            (None, None) => true,
            _ => false,
        },
    decreases 5 - k,
{
    if k >= 5 || b.len() <= pos || b.len() - pos <= k {
        return None;
    }
    let byte = b[pos + k];
    if byte < 128 {
        Some((byte as u64, pos + k + 1))
    } else {
        match read_leb128_tail(b, pos, k + 1) {
            None => None,
            Some((v, next)) => {
                proof {
                    lemma_leb128_tail_bounds(b@, pos as int, (k + 1) as nat);
                    lemma_pow128_le(((5 - (k + 1)) as nat));
                }
                assert(128 * v <= 128 * 34359738368) by (nonlinear_arith)
                    requires
                        v <= 34359738368,
                ;
                Some(((byte - 128) as u64 + 128 * v, next))
            },
        }
    }
}

/// Powers of 128 up to the fourth stay below `2^35`.
proof fn lemma_pow128_le(n: nat)
    requires
        n <= 4,
    ensures
        pow128(n) <= 34359738368,
{
    reveal_with_fuel(pow128, 5);
}

/// Decodes the unsigned LEB128 number that starts at `pos`.
pub fn read_leb128(b: &[u8], pos: usize) -> (r: Option<(u64, usize)>)
    ensures
        match (r, leb128_at(b@, pos as int)) {
            (Some((v, n)), Some((sv, sn))) => v == sv && n == sn,
            (None, None) => true,
            _ => false,
        },
{
    read_leb128_tail(b, pos, 0)
}

/// Whether the module's sections include a start section.
pub fn declares_start_section(b: &[u8]) -> (r: bool)
    ensures
        r == declares_start(b@),
{
    let len = b.len();
    let mut pos: usize = 8;
    loop
        invariant
            len == b@.len(),
            declares_start(b@) == start_section_from(b@, pos as int),
        decreases len - pos,
    {
        if pos >= len {
            return false;
        }
        match read_leb128(b, pos + 1) {
            None => {
                return false;
            },
            Some((size, next)) => {
                proof {
                    lemma_leb128_tail_bounds(b@, pos + 1, 0);
                }
                if b[pos] == START_SECTION_ID {
                    return true;
                }
                if size > (len - next) as u64 {
                    return false;
                }
                pos = next + size as usize;
            },
        }
    }
}

/// Where the section that starts at `pos` ends and the next one begins: the
/// id byte, then the LEB128 size, then that many bytes of content. `None`
/// when the size does not decode or the content runs past the end.
pub open spec fn next_section_start(b: Seq<u8>, pos: int) -> Option<int> {
    match leb128_at(b, pos + 1) {
        Some((size, next)) => if next + size <= b.len() {
            Some(next + size)
        } else {
            None
        },
        None => None,
    }
}

/// `c` lists section starts, each following the one before it, from `c[0]`.
pub open spec fn section_chain(b: Seq<u8>, c: Seq<int>) -> bool {
    &&& c.len() > 0
    &&& forall|k: int| 0 <= k < c.len() ==> 0 <= #[trigger] c[k] < b.len()
    &&& forall|k: int| 0 <= k < c.len() - 1 ==> next_section_start(b, #[trigger] c[k]) == Some(c[k + 1])
}

/// The last section of chain `c` has the start id and a decodable size.
pub open spec fn chain_ends_in_start(b: Seq<u8>, c: Seq<int>) -> bool {
    b[c.last()] == START_SECTION_ID && leb128_at(b, c.last() + 1) is Some
}

/// The walk from `pos` finds a start section exactly when some chain of
/// sections from `pos` reaches one.
proof fn lemma_walk_finds_chain(b: Seq<u8>, pos: int)
    ensures
        start_section_from(b, pos) <==> exists|c: Seq<int>|
            #[trigger] section_chain(b, c) && c[0] == pos && chain_ends_in_start(b, c),
    decreases b.len() - pos,
{
    if 0 <= pos < b.len() {
        lemma_leb128_tail_bounds(b, pos + 1, 0);
        if let Some((size, next)) = leb128_at(b, pos + 1) {
            if b[pos] == START_SECTION_ID {
                let c = seq![pos];
                assert(section_chain(b, c) && c[0] == pos && chain_ends_in_start(b, c));
            } else {
                if next + size <= b.len() {
                    lemma_walk_finds_chain(b, next + size);
                    if start_section_from(b, pos) {
                        let c2 = choose|c: Seq<int>|
                            #[trigger] section_chain(b, c) && c[0] == next + size
                                && chain_ends_in_start(b, c);
                        let c = seq![pos] + c2;
                        assert forall|k: int| 0 <= k < c.len() - 1 implies next_section_start(
                            b,
                            #[trigger] c[k],
                        ) == Some(c[k + 1]) by {
                            if k > 0 {
                                assert(c[k] == c2[k - 1] && c[k + 1] == c2[k]);
                            }
                        }
                        assert(c.last() == c2.last());
                        assert(section_chain(b, c) && c[0] == pos && chain_ends_in_start(b, c));
                    }
                }
                if exists|c: Seq<int>|
                    #[trigger] section_chain(b, c) && c[0] == pos && chain_ends_in_start(b, c) {
                    let c = choose|c: Seq<int>|
                        #[trigger] section_chain(b, c) && c[0] == pos && chain_ends_in_start(b, c);
                    assert(c.len() > 1);
                    assert(next_section_start(b, c[0]) == Some(c[1]));
                    let c2 = c.drop_first();
                    assert forall|k: int| 0 <= k < c2.len() - 1 implies next_section_start(
                        b,
                        #[trigger] c2[k],
                    ) == Some(c2[k + 1]) by {
                        assert(c2[k] == c[k + 1] && c2[k + 1] == c[k + 2]);
                    }
                    assert(forall|k: int| 0 <= k < c2.len() ==> c2[k] == c[k + 1]);
                    assert(section_chain(b, c2) && c2[0] == next + size && chain_ends_in_start(b, c2));
                }
            }
        } else {
            if exists|c: Seq<int>|
                #[trigger] section_chain(b, c) && c[0] == pos && chain_ends_in_start(b, c) {
                let c = choose|c: Seq<int>|
                    #[trigger] section_chain(b, c) && c[0] == pos && chain_ends_in_start(b, c);
                if c.len() > 1 {
                    assert(next_section_start(b, c[0]) == Some(c[1]));
                }
            }
        }
    } else {
        if exists|c: Seq<int>|
            #[trigger] section_chain(b, c) && c[0] == pos && chain_ends_in_start(b, c) {
            let c = choose|c: Seq<int>|
                #[trigger] section_chain(b, c) && c[0] == pos && chain_ends_in_start(b, c);
            assert(0 <= c[0] < b.len());
        }
    }
}

/// A module declares a start function exactly when walking its sections
/// from the end of the header (id byte, LEB128 size, content, and on to the
/// next) reaches a section with the start id.
pub proof fn lemma_declares_start_iff_chain(b: Seq<u8>)
    ensures
        declares_start(b) <==> exists|c: Seq<int>|
            #[trigger] section_chain(b, c) && c[0] == 8 && chain_ends_in_start(b, c),
{
    lemma_walk_finds_chain(b, 8);
}

/// An unsigned LEB128 number ends at its first byte below 128, within five
/// bytes: every byte before it has the continuation bit set.
pub proof fn lemma_leb128_shape(b: Seq<u8>, pos: int)
    ensures
        leb128_at(b, pos) matches Some((v, next)) ==> {
            &&& pos < next <= pos + 5
            &&& next <= b.len()
            &&& b[next - 1] < 128
            &&& forall|j: int| pos <= j < next - 1 ==> #[trigger] b[j] >= 128
        },
        (exists|n: int| 0 <= n < 5 && pos + n < b.len() && 0 <= pos && #[trigger] b[pos + n] < 128)
            ==> leb128_at(b, pos) is Some,
{
    lemma_leb128_tail_shape(b, pos, 0);
}

proof fn lemma_leb128_tail_shape(b: Seq<u8>, pos: int, k: nat)
    requires
        k <= 5,
    ensures
        leb128_tail(b, pos, k) matches Some((v, next)) ==> {
            &&& pos + k < next <= pos + 5
            &&& next <= b.len()
            &&& b[next - 1] < 128
            &&& forall|j: int| pos + k <= j < next - 1 ==> #[trigger] b[j] >= 128
        },
        (exists|n: int| k <= n < 5 && pos + n < b.len() && 0 <= pos && #[trigger] b[pos + n] < 128)
            ==> leb128_tail(b, pos, k) is Some,
    decreases 5 - k,
{
    if k < 5 {
        lemma_leb128_tail_shape(b, pos, k + 1);
        if exists|n: int| k <= n < 5 && pos + n < b.len() && 0 <= pos && #[trigger] b[pos + n] < 128 {
            let n = choose|n: int| k <= n < 5 && pos + n < b.len() && 0 <= pos && #[trigger] b[pos + n] < 128;
            if n > k {
                assert(k + 1 <= n < 5 && pos + n < b.len() && b[pos + n] < 128);
            }
        }
    }
}

/// Position and size of the content of the first section with id `id`
/// from `pos` on.
pub open spec fn find_section(b: Seq<u8>, pos: int, id: u8) -> Option<(int, int)>
    decreases b.len() - pos,
{
    if pos < 0 || pos >= b.len() {
        None
    } else {
        match leb128_at(b, pos + 1) {
            None => None,
            Some((size, next)) => if next + size > b.len() {
                None
            } else if b[pos] == id {
                Some((next, size))
            } else {
                proof {
                    lemma_leb128_tail_bounds(b, pos + 1, 0);
                }
                find_section(b, next + size, id)
            },
        }
    }
}

/// Position and size of entry `i` of a sequence of size-prefixed entries
/// (as in the code section) that starts at `pos`.
pub open spec fn sized_entry(b: Seq<u8>, pos: int, i: nat) -> Option<(int, int)>
    decreases i,
{
    match leb128_at(b, pos) {
        None => None,
        Some((size, next)) => if next + size > b.len() {
            None
        } else if i == 0 {
            Some((next, size))
        } else {
            sized_entry(b, next + size, (i - 1) as nat)
        },
    }
}

/// Id of the import section.
pub const IMPORT_SECTION_ID: u8 = 2;

/// Id of the code section.
pub const CODE_SECTION_ID: u8 = 10;

/// The module imports nothing, declares a start function, and that
/// function's body declares no locals and holds no instruction but its
/// final `end`: running it returns at once.
pub open spec fn start_body_is_empty(b: Seq<u8>) -> bool {
    find_section(b, 8, IMPORT_SECTION_ID) is None && match find_section(b, 8, START_SECTION_ID) {
        None => false,
        Some((start_pos, _)) => match leb128_at(b, start_pos) {
            None => false,
            Some((func_index, _)) => match find_section(b, 8, CODE_SECTION_ID) {
                None => false,
                Some((code_pos, _)) => match leb128_at(b, code_pos) {
                    None => false,
                    Some((count, first)) => 0 <= func_index < count && match sized_entry(
                        b,
                        first,
                        func_index as nat,
                    ) {
                        None => false,
                        Some((body, size)) => size == 2 && b[body] == 0x00 && b[body + 1] == 0x0b,
                    },
                },
            },
        },
    }
}

/// The number that the first `n` bytes from `pos` spell in base 128, least
/// significant first, each byte contributing its low seven bits.
pub open spec fn base128_digits(b: Seq<u8>, pos: int, n: nat) -> int
    decreases n,
{
    if n == 0 {
        0
    } else {
        base128_digits(b, pos, (n - 1) as nat) + (b[pos + n - 1] % 128) * pow128((n - 1) as nat)
    }
}

proof fn lemma_leb128_tail_value(b: Seq<u8>, pos: int, k: nat)
    requires
        k <= 5,
    ensures
        leb128_tail(b, pos, k) matches Some((v, next)) ==> next - pos >= k + 1 && v * pow128(k)
            + base128_digits(b, pos, k) == base128_digits(b, pos, (next - pos) as nat),
    decreases 5 - k,
{
    if k < 5 && 0 <= pos + k < b.len() {
        let byte = b[pos + k];
        assert(base128_digits(b, pos, k + 1) == base128_digits(b, pos, k) + (byte % 128) * pow128(
            k,
        ));
        if byte < 128 {
            assert(byte % 128 == byte);
        } else {
            lemma_leb128_tail_value(b, pos, k + 1);
            if let Some((w, next)) = leb128_tail(b, pos, k + 1) {
                let v = (byte - 128) + 128 * w;
                assert(pow128(k + 1) == 128 * pow128(k));
                assert(byte % 128 == byte - 128);
                assert(v * pow128(k) == (byte - 128) * pow128(k) + w * pow128(k + 1)) by (nonlinear_arith)
                    requires
                        v == (byte - 128) + 128 * w,
                        pow128(k + 1) == 128 * pow128(k),
                ;
            }
        }
    }
}

/// An unsigned LEB128 number is the base-128 reading of its bytes, least
/// significant group first.
pub proof fn lemma_leb128_value(b: Seq<u8>, pos: int)
    ensures
        leb128_at(b, pos) matches Some((v, next)) ==> v == base128_digits(
            b,
            pos,
            (next - pos) as nat,
        ),
{
    lemma_leb128_tail_value(b, pos, 0);
}

} // verus!
