use vstd::prelude::*;
use vstd::utf8::{decode_utf8, valid_utf8};

verus! {

/// Bytes in one login record of the utmp file (`struct utmp` of glibc on a
/// 64-bit Linux host).
pub const UTMP_SIZE: usize = 384;

/// Where the user name starts within a record, and how many bytes it may take.
pub const UT_USER_OFFSET: usize = 44;

pub const UT_NAMESIZE: usize = 32;

/// The `ut_type` of a record that describes a logged-in user.
pub const USER_PROCESS: i16 = 7;

/// Relies on `std::str::from_utf8`, which accepts exactly the byte sequences
/// that are valid UTF-8 and decodes them.
#[verifier::external_body]
fn utf8_text(bytes: &[u8]) -> (r: Option<String>)
    ensures
        r is Some <==> valid_utf8(bytes@),
        r matches Some(s) ==> s@ == decode_utf8(bytes@),
{
    std::str::from_utf8(bytes).ok().map(|s| s.to_owned())
}

/// The `i`-th record of a utmp file.
pub open spec fn record(data: Seq<u8>, i: int) -> Seq<u8> {
    data.subrange(i * UTMP_SIZE, i * UTMP_SIZE + UTMP_SIZE)
}

/// The record's `ut_type`, a little-endian 16-bit integer at its start.
pub open spec fn ut_type_of(rec: Seq<u8>) -> i16 {
    ((rec[0] as int + 256 * rec[1] as int) as u16) as i16
}

/// The first position at or after `i` that does not hold a zero byte.
pub open spec fn first_nonzero(s: Seq<u8>, i: int) -> int
    decreases s.len() - i,
{
    if 0 <= i < s.len() && s[i] == 0 {
        first_nonzero(s, i + 1)
    } else {
        i
    }
}

/// The end of `s` once its trailing zero bytes, down to `lo`, are cut off.
pub open spec fn end_before_zeros(s: Seq<u8>, lo: int, j: int) -> int
    decreases j,
{
    if 0 <= lo < j <= s.len() && s[j - 1] == 0 {
        end_before_zeros(s, lo, j - 1)
    } else {
        j
    }
}

/// `s` without its leading and trailing zero bytes.
pub open spec fn trim_zeros(s: Seq<u8>) -> Seq<u8> {
    let lo = first_nonzero(s, 0);
    s.subrange(lo, end_before_zeros(s, lo, s.len() as int))
}

/// The user name of a record: its name field without the zero padding, or
/// "unknown" when that is not valid UTF-8.
pub open spec fn user_of(rec: Seq<u8>) -> Seq<char> {
    let name = trim_zeros(rec.subrange(UT_USER_OFFSET as int, UT_USER_OFFSET + UT_NAMESIZE));
    if valid_utf8(name) {
        decode_utf8(name)
    } else {
        "unknown"@
    }
}

/// The users logged in according to the first `n` records, in file order.
pub open spec fn users_of(data: Seq<u8>, n: int) -> Seq<Seq<char>>
    decreases n,
{
    if n <= 0 {
        Seq::empty()
    } else {
        let rest = users_of(data, n - 1);
        if ut_type_of(record(data, n - 1)) == USER_PROCESS {
            rest.push(user_of(record(data, n - 1)))
        } else {
            rest
        }
    }
}

pub open spec fn string_views(v: Seq<String>) -> Seq<Seq<char>> {
    v.map_values(|s: String| s@)
}

/// The name of the user in the record that starts at `start`.
fn user_name(data: &[u8], start: usize) -> (r: String)
    requires
        start + UTMP_SIZE <= data@.len(),
    ensures
        r@ == user_of(data@.subrange(start as int, start + UTMP_SIZE)),
{
    let total = data.len();
    let ghost rec = data@.subrange(start as int, start + UTMP_SIZE);
    let base = start + UT_USER_OFFSET;
    let ghost field = data@.subrange(base as int, base + UT_NAMESIZE);
    assert(field =~= rec.subrange(UT_USER_OFFSET as int, UT_USER_OFFSET + UT_NAMESIZE));
    let mut lo: usize = 0;
    while lo < UT_NAMESIZE && data[base + lo] == 0
        invariant
            lo <= UT_NAMESIZE,
            total == data@.len(),
            base + UT_NAMESIZE <= data@.len(),
            field == data@.subrange(base as int, base + UT_NAMESIZE),
            first_nonzero(field, 0) == first_nonzero(field, lo as int),
        decreases UT_NAMESIZE - lo,
    {
        lo = lo + 1;
    }
    let mut hi: usize = UT_NAMESIZE;
    while hi > lo && data[base + hi - 1] == 0
        invariant
            lo <= hi <= UT_NAMESIZE,
            total == data@.len(),
            base + UT_NAMESIZE <= data@.len(),
            field == data@.subrange(base as int, base + UT_NAMESIZE),
            first_nonzero(field, 0) == lo,
            end_before_zeros(field, lo as int, UT_NAMESIZE as int) == end_before_zeros(
                field,
                lo as int,
                hi as int,
            ),
        decreases hi,
    {
        hi = hi - 1;
    }
    let mut name: Vec<u8> = Vec::new();
    let mut k: usize = lo;
    assert(name@ =~= field.subrange(lo as int, lo as int));
    while k < hi
        invariant
            lo <= k <= hi <= UT_NAMESIZE,
            total == data@.len(),
            base + UT_NAMESIZE <= data@.len(),
            field == data@.subrange(base as int, base + UT_NAMESIZE),
            name@ == field.subrange(lo as int, k as int),
        decreases hi - k,
    {
        name.push(data[base + k]);
        k = k + 1;
        assert(name@ =~= field.subrange(lo as int, k as int));
    }
    assert(name@ == trim_zeros(field));
    match utf8_text(name.as_slice()) {
        Some(s) => s,
        None => "unknown".to_owned(),
    }
}

/// The users logged in according to the contents of a utmp file: the name of
/// every complete record whose type is `USER_PROCESS`, in file order. A
/// trailing partial record is ignored.
pub fn get_utmp(data: &[u8]) -> (r: Vec<String>)
    ensures
        string_views(r@) == users_of(data@, data@.len() as int / UTMP_SIZE as int),
{
    let total = data.len();
    let n = total / UTMP_SIZE;
    let mut users: Vec<String> = Vec::new();
    let mut i: usize = 0;
    assert(string_views(users@) =~= Seq::<Seq<char>>::empty());
    while i < n
        invariant
            n == data@.len() as int / UTMP_SIZE as int,
            n * UTMP_SIZE <= data@.len(),
            total == data@.len(),
            i <= n,
            string_views(users@) == users_of(data@, i as int),
        decreases n - i,
    {
        assert((i + 1) * 384 <= n * 384) by (nonlinear_arith)
            requires i + 1 <= n;
        assert(n * 384 <= data@.len()) by (nonlinear_arith)
            requires n == data@.len() as int / 384;
        let start = i * UTMP_SIZE;
        let ghost rec = record(data@, i as int);
        assert(rec[0] == data@[start as int] && rec[1] == data@[start + 1]);
        let ut_type = #[verifier::truncate] ((data[start] as u16 + 256 * (data[start + 1] as u16)) as i16);
        if ut_type == USER_PROCESS {
            let name = user_name(data, start);
            let ghost before = users@;
            users.push(name);
            assert(string_views(users@) =~= string_views(before).push(name@));
        }
        i = i + 1;
    }
    users
}

} // verus!
