use vstd::prelude::*;

use crate::artist::{Artist, key_of, lemma_keys_plain};
use crate::error::ServiceError;
use crate::text::same_text;

verus! {

/// The character of a decimal digit below ten.
pub open spec fn digit_char(d: nat) -> char {
    if d == 0 {
        '0'
    } else if d == 1 {
        '1'
    } else if d == 2 {
        '2'
    } else if d == 3 {
        '3'
    } else if d == 4 {
        '4'
    } else if d == 5 {
        '5'
    } else if d == 6 {
        '6'
    } else if d == 7 {
        '7'
    } else if d == 8 {
        '8'
    } else {
        '9'
    }
}

/// The decimal notation of `n`, without leading zeros.
pub open spec fn decimal(n: nat) -> Seq<char>
    decreases n,
{
    if n < 10 {
        seq![digit_char(n)]
    } else {
        decimal(n / 10).push(digit_char(n % 10))
    }
}

/// A character that may stand in a file name: printable ASCII other than
/// the two path separators.
pub open spec fn safe_char(c: char) -> bool {
    ' ' <= c <= '~' && c != '/' && c != '\\'
}

/// A client-supplied name fragment that cannot leave its directory: only
/// safe characters, and neither `.` nor `..`.
pub open spec fn safe_fragment(s: Seq<char>) -> bool {
    &&& forall|i: int| 0 <= i < s.len() ==> safe_char(#[trigger] s[i])
    &&& s != seq!['.']
    &&& s != seq!['.', '.']
}

/// The file name under which an upload is stored: the artist key, the
/// request number and the client's fragment, joined by `_`.
pub open spec fn stored_name(a: Artist, request: nat, fragment: Seq<char>) -> Seq<char> {
    key_of(a) + seq!['_'] + decimal(request) + seq!['_'] + fragment
}

/// The directory that uploads are written to.
pub open spec fn upload_root() -> Seq<char> {
    "upload/"@
}

/// The directory that the conversion tool writes to.
pub open spec fn download_root() -> Seq<char> {
    "download/"@
}

/// The output path that belongs to an input path: the upload root is
/// replaced by the download root, the rest is kept.
pub open spec fn output_for(input: Seq<char>) -> Seq<char> {
    download_root() + input.skip(upload_root().len() as int)
}

/// Where an upload is stored and where its conversion lands, or why it
/// cannot be stored.
pub open spec fn storage_plan(a: Artist, request: nat, fragment: Seq<char>) -> Result<
    (Seq<char>, Seq<char>),
    ServiceError,
> {
    if safe_fragment(fragment) {
        let name = stored_name(a, request, fragment);
        Ok((upload_root() + name, download_root() + name))
    } else {
        Err(ServiceError::InvalidPath)
    }
}

/// The file that a download request for `segment` reads.
pub open spec fn download_resolution(segment: Seq<char>) -> Result<Seq<char>, ServiceError> {
    if segment.len() > 0 && safe_fragment(segment) {
        Ok(download_root() + segment)
    } else {
        Err(ServiceError::InvalidPath)
    }
}

/// The body of a successful upload response: the output path as an
/// absolute URL path.
pub open spec fn response_text(output: Seq<char>) -> Seq<char> {
    seq!['/'] + output
}

proof fn lemma_decimal_digits(n: nat)
    ensures
        decimal(n).len() >= 1,
        n >= 10 <==> decimal(n).len() >= 2,
        forall|i: int| 0 <= i < decimal(n).len() ==> '0' <= #[trigger] decimal(n)[i] <= '9',
    decreases n,
{
    if n >= 10 {
        lemma_decimal_digits(n / 10);
        assert forall|i: int| 0 <= i < decimal(n).len() implies '0' <= #[trigger] decimal(n)[i]
            <= '9' by {
            if i < decimal(n / 10).len() {
                assert(decimal(n)[i] == decimal(n / 10)[i]);
            }
        }
    }
}

proof fn lemma_decimal_injective(a: nat, b: nat)
    requires
        decimal(a) == decimal(b),
    ensures
        a == b,
    decreases a,
{
    lemma_decimal_digits(a);
    lemma_decimal_digits(b);
    if a >= 10 {
        let da = decimal(a);
        assert(da.drop_last() =~= decimal(a / 10));
        assert(decimal(b).drop_last() =~= decimal(b / 10));
        assert(digit_char(a % 10) == da.last());
        assert(digit_char(b % 10) == decimal(b).last());
        lemma_decimal_injective(a / 10, b / 10);
    } else {
        assert(decimal(a)[0] == digit_char(a));
        assert(decimal(b)[0] == digit_char(b));
    }
}

/// Splits `x + "_" + y` at its first `_`.
proof fn lemma_split_at_separator(x1: Seq<char>, y1: Seq<char>, x2: Seq<char>, y2: Seq<char>)
    requires
        forall|i: int| 0 <= i < x1.len() ==> #[trigger] x1[i] != '_',
        forall|i: int| 0 <= i < x2.len() ==> #[trigger] x2[i] != '_',
        x1 + seq!['_'] + y1 == x2 + seq!['_'] + y2,
    ensures
        x1 == x2,
        y1 == y2,
{
    let s = x1 + seq!['_'] + y1;
    if x1.len() < x2.len() {
        assert(s[x1.len() as int] == '_');
        assert((x2 + seq!['_'] + y2)[x1.len() as int] == x2[x1.len() as int]);
    } else if x2.len() < x1.len() {
        assert(s[x2.len() as int] == x1[x2.len() as int]);
        assert((x2 + seq!['_'] + y2)[x2.len() as int] == '_');
    }
    assert(x1 =~= s.subrange(0, x1.len() as int));
    assert(x2 =~= (x2 + seq!['_'] + y2).subrange(0, x2.len() as int));
    assert(y1 =~= s.skip(x1.len() as int + 1));
    assert(y2 =~= (x2 + seq!['_'] + y2).skip(x2.len() as int + 1));
}

/// Distinct requests never share a file: two uploads whose artist, request
/// number or name fragment differ are stored under different input paths
/// and converted to different output paths.
pub proof fn lemma_storage_paths_distinct(
    a1: Artist,
    request1: nat,
    fragment1: Seq<char>,
    a2: Artist,
    request2: nat,
    fragment2: Seq<char>,
)
    requires
        storage_plan(a1, request1, fragment1) is Ok,
        storage_plan(a2, request2, fragment2) is Ok,
        a1 != a2 || request1 != request2 || fragment1 != fragment2,
    ensures
        storage_plan(a1, request1, fragment1).unwrap().0 != storage_plan(
            a2,
            request2,
            fragment2,
        ).unwrap().0,
        storage_plan(a1, request1, fragment1).unwrap().1 != storage_plan(
            a2,
            request2,
            fragment2,
        ).unwrap().1,
{
    let n1 = stored_name(a1, request1, fragment1);
    let n2 = stored_name(a2, request2, fragment2);
    if upload_root() + n1 == upload_root() + n2 || download_root() + n1 == download_root() + n2 {
        if upload_root() + n1 == upload_root() + n2 {
            assert(n1 =~= (upload_root() + n1).skip(upload_root().len() as int));
            assert(n2 =~= (upload_root() + n2).skip(upload_root().len() as int));
        } else {
            assert(n1 =~= (download_root() + n1).skip(download_root().len() as int));
            assert(n2 =~= (download_root() + n2).skip(download_root().len() as int));
        }
        assert(n1 == n2);
        lemma_keys_plain();
        lemma_decimal_digits(request1);
        lemma_decimal_digits(request2);
        let r1 = decimal(request1) + seq!['_'] + fragment1;
        let r2 = decimal(request2) + seq!['_'] + fragment2;
        assert(n1 =~= key_of(a1) + seq!['_'] + r1);
        assert(n2 =~= key_of(a2) + seq!['_'] + r2);
        lemma_split_at_separator(key_of(a1), r1, key_of(a2), r2);
        lemma_split_at_separator(decimal(request1), fragment1, decimal(request2), fragment2);
        lemma_decimal_injective(request1, request2);
    }
}

/// A stored upload never leaves its root: its file name is non-empty, holds
/// no path separator and is neither `.` nor `..`, and the output lands in
/// the download root under the same name. A fragment with a separator or
/// one that is a parent reference is refused.
pub proof fn lemma_storage_stays_under_roots(a: Artist, request: nat, fragment: Seq<char>)
    ensures
        storage_plan(a, request, fragment) is Ok <==> safe_fragment(fragment),
        (exists|i: int| 0 <= i < fragment.len() && (fragment[i] == '/' || fragment[i] == '\\'))
            ==> storage_plan(a, request, fragment) == Err::<(Seq<char>, Seq<char>), ServiceError>(
            ServiceError::InvalidPath,
        ),
        fragment == seq!['.', '.'] ==> storage_plan(a, request, fragment) == Err::<
            (Seq<char>, Seq<char>),
            ServiceError,
        >(ServiceError::InvalidPath),
        safe_fragment(fragment) ==> ({
            let name = stored_name(a, request, fragment);
            &&& storage_plan(a, request, fragment) == Ok::<
                (Seq<char>, Seq<char>),
                ServiceError,
            >((upload_root() + name, download_root() + name))
            &&& safe_fragment(name)
            &&& name.len() > 0
            &&& output_for(upload_root() + name) == download_root() + name
        }),
{
    let name = stored_name(a, request, fragment);
    if exists|i: int| 0 <= i < fragment.len() && (fragment[i] == '/' || fragment[i] == '\\') {
        let i = choose|i: int|
            0 <= i < fragment.len() && (fragment[i] == '/' || fragment[i] == '\\');
        assert(!safe_char(fragment[i]));
    }
    if safe_fragment(fragment) {
        lemma_keys_plain();
        lemma_decimal_digits(request);
        let k = key_of(a);
        let d = decimal(request);
        assert forall|i: int| 0 <= i < name.len() implies safe_char(#[trigger] name[i]) by {
            if i < k.len() {
                assert(name[i] == k[i]);
            } else if i == k.len() {
                assert(name[i] == '_');
            } else if i < k.len() + 1 + d.len() {
                assert(name[i] == d[i - k.len() - 1]);
            } else if i == k.len() + 1 + d.len() {
                assert(name[i] == '_');
            } else {
                assert(name[i] == fragment[i - k.len() - 2 - d.len()]);
            }
        }
        assert(name[0] == k[0]);
        assert(name.len() >= 4);
        assert(name != seq!['.']);
        assert(name != seq!['.', '.']);
        assert((upload_root() + name).skip(upload_root().len() as int) =~= name);
    }
}

/// A download request for the path that an upload response names reads
/// exactly the file that the conversion was asked to write.
pub proof fn lemma_response_leads_to_output(a: Artist, request: nat, fragment: Seq<char>)
    requires
        storage_plan(a, request, fragment) is Ok,
    ensures
        ({
            let name = stored_name(a, request, fragment);
            let output = storage_plan(a, request, fragment).unwrap().1;
            &&& response_text(output) == seq!['/'] + download_root() + name
            &&& download_resolution(name) == Ok::<Seq<char>, ServiceError>(output)
        }),
{
    lemma_storage_stays_under_roots(a, request, fragment);
    let name = stored_name(a, request, fragment);
    assert(seq!['/'] + (download_root() + name) =~= seq!['/'] + download_root() + name);
}

fn digit_text(d: u64) -> (r: &'static str)
    requires
        d < 10,
    ensures
        r@ == seq![digit_char(d as nat)],
{
    proof {
        reveal_strlit("0");
        reveal_strlit("1");
        reveal_strlit("2");
        reveal_strlit("3");
        reveal_strlit("4");
        reveal_strlit("5");
        reveal_strlit("6");
        reveal_strlit("7");
        reveal_strlit("8");
        reveal_strlit("9");
    }
    if d == 0 {
        "0"
    } else if d == 1 {
        "1"
    } else if d == 2 {
        "2"
    } else if d == 3 {
        "3"
    } else if d == 4 {
        "4"
    } else if d == 5 {
        "5"
    } else if d == 6 {
        "6"
    } else if d == 7 {
        "7"
    } else if d == 8 {
        "8"
    } else {
        "9"
    }
}

/// The decimal notation of `n`.
pub fn decimal_text(n: u64) -> (r: String)
    ensures
        r@ == decimal(n as nat),
    decreases n,
{
    if n < 10 {
        String::from_str(digit_text(n))
    } else {
        let mut s = decimal_text(n / 10);
        s.append(digit_text(n % 10));
        s
    }
}

/// Whether a name fragment is safe to use inside a file name.
pub fn is_safe_fragment(s: &str) -> (r: bool)
    ensures
        r == safe_fragment(s@),
{
    proof {
        reveal_strlit(".");
        reveal_strlit("..");
        assert("."@ =~= seq!['.']);
        assert(".."@ =~= seq!['.', '.']);
    }
    let n = s.unicode_len();
    let mut i: usize = 0;
    while i < n
        invariant
            n == s@.len(),
            i <= n,
            forall|j: int| 0 <= j < i ==> safe_char(#[trigger] s@[j]),
        decreases n - i,
    {
        let c = s.get_char(i);
        if !(' ' <= c && c <= '~' && c != '/' && c != '\\') {
            return false;
        }
        i += 1;
    }
    !same_text(s, ".") && !same_text(s, "..")
}

/// Where an upload of `fragment` for `artist` in request `request` is stored
/// (first) and where its conversion is written (second); `InvalidPath` when
/// the fragment could leave its directory.
pub fn plan_storage(artist: Artist, request: u64, fragment: &str) -> (r: Result<
    (String, String),
    ServiceError,
>)
    ensures
        match r {
            Ok((input, output)) => storage_plan(artist, request as nat, fragment@) == Ok::<
                (Seq<char>, Seq<char>),
                ServiceError,
            >((input@, output@)),
            Err(e) => storage_plan(artist, request as nat, fragment@) == Err::<
                (Seq<char>, Seq<char>),
                ServiceError,
            >(e),
        },
{
    if !is_safe_fragment(fragment) {
        return Err(ServiceError::InvalidPath);
    }
    proof {
        reveal_strlit("_");
    }
    let mut name = String::from_str(artist.key());
    name.append("_");
    let digits = decimal_text(request);
    name.append(digits.as_str());
    name.append("_");
    name.append(fragment);
    let input = String::from_str("upload/").concat(name.as_str());
    let output = String::from_str("download/").concat(name.as_str());
    assert(name@ =~= stored_name(artist, request as nat, fragment@));
    Ok((input, output))
}

/// The file that `GET /download/{segment}` reads; `InvalidPath` when the
/// segment is empty or could leave the download root.
pub fn download_target(segment: &str) -> (r: Result<String, ServiceError>)
    ensures
        match r {
            Ok(p) => download_resolution(segment@) == Ok::<Seq<char>, ServiceError>(p@),
            Err(e) => download_resolution(segment@) == Err::<Seq<char>, ServiceError>(e),
        },
{
    if segment.unicode_len() == 0 || !is_safe_fragment(segment) {
        return Err(ServiceError::InvalidPath);
    }
    Ok(String::from_str("download/").concat(segment))
}

/// The body of a successful upload response.
pub fn response_body(output: &str) -> (r: String)
    ensures
        r@ == response_text(output@),
{
    proof {
        reveal_strlit("/");
    }
    String::from_str("/").concat(output)
}

} // verus!
