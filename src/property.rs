use vstd::prelude::*;
use crate::recovery::DeviceError;

verus! {

/// What `String::from_utf16_lossy` makes of a sequence of UTF-16 code units.
pub uninterp spec fn utf16_lossy(units: Seq<u16>) -> Seq<char>;

/// Relies on `String::from_utf16_lossy`: decodes UTF-16, putting the
/// replacement character in place of each invalid unit; the result
/// depends on the units alone.
#[verifier::external_body]
fn decode_utf16_lossy(units: &[u16]) -> (r: String)
    ensures
        r@ == utf16_lossy(units@),
{
    String::from_utf16_lossy(units)
}

/// The little-endian 16-bit units of a byte buffer; a trailing odd byte is dropped.
pub open spec fn wide_units(b: Seq<u8>) -> Seq<u16> {
    Seq::new((b.len() / 2) as nat, |i: int| (b[2 * i] as int + 256 * b[2 * i + 1] as int) as u16)
}

/// `i` is the position of the first zero unit of `u`.
pub open spec fn is_first_nul(u: Seq<u16>, i: int) -> bool {
    0 <= i < u.len() && u[i] == 0 && forall|j: int| 0 <= j < i ==> u[j] != 0
}

/// The number of units before the first zero unit, or all of them when there is none.
pub open spec fn nul_cut(u: Seq<u16>) -> int {
    if exists|i: int| is_first_nul(u, i) {
        choose|i: int| is_first_nul(u, i)
    } else {
        u.len() as int
    }
}

/// The text of a device property from its raw value: little-endian UTF-16,
/// ending at the first zero unit or at the end of the buffer.
pub fn property_text(raw: &Vec<u8>) -> (r: String)
    ensures
        r@ == utf16_lossy(wide_units(raw@).take(nul_cut(wide_units(raw@)))),
{
    let ghost w = wide_units(raw@);
    let count = raw.len() / 2;
    let mut units: Vec<u16> = Vec::new();
    let mut i: usize = 0;
    assert(units@ =~= w.take(0));
    while i < count
        invariant
            count == raw@.len() / 2,
            2 * count <= raw.len(),
            w == wide_units(raw@),
            i <= count,
            units@ == w.take(i as int),
            forall|j: int| 0 <= j < i ==> w[j] != 0,
        decreases count - i,
    {
        let lo = raw[2 * i];
        let hi = raw[2 * i + 1];
        let unit: u16 = (hi as u16) * 256 + (lo as u16);
        assert(unit == w[i as int]);
        if unit == 0 {
            assert(is_first_nul(w, i as int));
            assert(nul_cut(w) == i) by {
                let c = choose|c: int| is_first_nul(w, c);
                assert(is_first_nul(w, c));
                if c < i {
                    assert(w[c] != 0);
                } else if c > i {
                    assert(w[i as int] != 0);
                }
            }
            return decode_utf16_lossy(units.as_slice());
        }
        units.push(unit);
        i = i + 1;
        assert(units@ =~= w.take(i as int));
    }
    assert(!exists|c: int| is_first_nul(w, c)) by {
        if exists|c: int| is_first_nul(w, c) {
            let c = choose|c: int| is_first_nul(w, c);
            assert(w[c] != 0);
        }
    }
    assert(units@ =~= w.take(w.len() as int));
    decode_utf16_lossy(units.as_slice())
}

/// The value of a name property after the two-step read. `required_len` is
/// the size that the first call reported; a size of zero means that the
/// device lacks the property, and `fetched` is then not looked at. Otherwise
/// `fetched` is what the second call read, or the error it failed with.
pub fn property_value(required_len: u32, fetched: Result<Vec<u8>, DeviceError>) -> (r: Result<
    Option<String>,
    DeviceError,
>)
    ensures
        required_len == 0 ==> r == Ok::<Option<String>, DeviceError>(None),
        required_len != 0 && fetched is Err ==> r == Err::<Option<String>, DeviceError>(
            fetched->Err_0,
        ),
        required_len != 0 && fetched is Ok ==> r is Ok && r->Ok_0 is Some && r->Ok_0->0@
            == utf16_lossy(wide_units(fetched->Ok_0@).take(nul_cut(wide_units(fetched->Ok_0@)))),
{
    if required_len == 0 {
        return Ok(None);
    }
    match fetched {
        Ok(raw) => Ok(Some(property_text(&raw))),
        Err(e) => Err(e),
    }
}

} // verus!
