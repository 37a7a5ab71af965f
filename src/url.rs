//! The request URLs of the GitLab REST API.
use vstd::prelude::*;
use vstd::string::*;
use vstd::utf8::encode_utf8;
use crate::model::GitLabConfig;

verus! {

/// `s` without the slashes at its end.
pub open spec fn trim_slashes(s: Seq<char>) -> Seq<char>
    decreases s.len(),
{
    if s.len() > 0 && s.last() == '/' {
        trim_slashes(s.drop_last())
    } else {
        s
    }
}

/// A byte that stands in a URL as it is: an ASCII letter or digit, or one
/// of `-`, `.`, `_`, `~`.
pub open spec fn is_unreserved(b: u8) -> bool {
    (48 <= b <= 57) || (65 <= b <= 90) || (97 <= b <= 122) || b == 45 || b == 46 || b == 95
        || b == 126
}

/// The uppercase hex digit of a value below 16.
pub open spec fn hex_digit(d: u8) -> char {
    seq!['0', '1', '2', '3', '4', '5', '6', '7', '8', '9', 'A', 'B', 'C', 'D', 'E', 'F'][d as int]
}

/// Percent-encoding of bytes: an unreserved byte stands for itself, any
/// other becomes `%` and its two uppercase hex digits.
pub open spec fn percent_encoded(b: Seq<u8>) -> Seq<char>
    decreases b.len(),
{
    if b.len() == 0 {
        Seq::empty()
    } else {
        let head = if is_unreserved(b[0]) {
            seq![b[0] as char]
        } else {
            seq!['%', hex_digit(b[0] / 16), hex_digit(b[0] % 16)]
        };
        head + percent_encoded(b.drop_first())
    }
}

/// The decimal digit of a value below 10.
pub open spec fn digit_char(d: nat) -> char {
    seq!['0', '1', '2', '3', '4', '5', '6', '7', '8', '9'][d as int]
}

/// The decimal form of a number, without leading zeros.
pub open spec fn decimal(n: nat) -> Seq<char>
    decreases n,
{
    if n < 10 {
        seq![digit_char(n)]
    } else {
        decimal(n / 10) + seq![digit_char(n % 10)]
    }
}

/// The URL of a project: the server without its trailing slashes, the API
/// path, and the project identifier percent-encoded as UTF-8.
pub open spec fn project_url_spec(server: Seq<char>, project: Seq<char>) -> Seq<char> {
    trim_slashes(server) + "/api/v4/projects/"@ + percent_encoded(encode_utf8(project))
}

/// The URL that lists the pipelines of a branch; the branch stands as it is.
pub open spec fn pipelines_url_spec(server: Seq<char>, project: Seq<char>, branch: Seq<char>) -> Seq<
    char,
> {
    project_url_spec(server, project) + "/pipelines?ref="@ + branch
}

/// The URL that lists the jobs of a pipeline, named by its decimal id.
pub open spec fn jobs_url_spec(server: Seq<char>, project: Seq<char>, id: nat) -> Seq<char> {
    project_url_spec(server, project) + "/pipelines/"@ + decimal(id) + "/jobs"@
}

/// Trimming keeps a prefix of the string, and what is kept does not end
/// with a slash.
pub proof fn lemma_trim_slashes(s: Seq<char>)
    ensures
        trim_slashes(s).len() <= s.len(),
        s.subrange(0, trim_slashes(s).len() as int) == trim_slashes(s),
        trim_slashes(s).len() == 0 || trim_slashes(s).last() != '/',
    decreases s.len(),
{
    if s.len() > 0 && s.last() == '/' {
        lemma_trim_slashes(s.drop_last());
        assert(s.subrange(0, trim_slashes(s).len() as int) =~= s.drop_last().subrange(
            0,
            trim_slashes(s).len() as int,
        ));
    } else {
        assert(s.subrange(0, s.len() as int) =~= s);
    }
}

/// A percent-encoded string holds no slash, so an encoded project
/// identifier is a single segment of the path.
pub proof fn lemma_encoded_has_no_slash(b: Seq<u8>)
    ensures
        forall|i: int| 0 <= i < percent_encoded(b).len() ==> percent_encoded(b)[i] != '/',
    decreases b.len(),
{
    if b.len() > 0 {
        lemma_encoded_has_no_slash(b.drop_first());
        let head = if is_unreserved(b[0]) {
            seq![b[0] as char]
        } else {
            seq!['%', hex_digit(b[0] / 16), hex_digit(b[0] % 16)]
        };
        assert(percent_encoded(b) == head + percent_encoded(b.drop_first()));
        assert forall|i: int| 0 <= i < head.len() implies head[i] != '/' by {
            if is_unreserved(b[0]) {
                assert(b[0] as char != '/');
            } else {
                assert(hex_digit(b[0] / 16) != '/');
                assert(hex_digit(b[0] % 16) != '/');
            }
        }
        assert forall|i: int| 0 <= i < percent_encoded(b).len() implies percent_encoded(b)[i]
            != '/' by {
            if i >= head.len() {
                assert(percent_encoded(b)[i] == percent_encoded(b.drop_first())[i - head.len()]);
            }
        }
    }
}

/// However many slashes the server URL ends with, the request URLs start
/// with the server URL without them, directly followed by the API path: no
/// doubled slash stands before `/api/v4`.
pub proof fn lemma_single_slash_before_api(
    server: Seq<char>,
    project: Seq<char>,
    branch: Seq<char>,
    id: nat,
)
    ensures
        ({
            let t = trim_slashes(server);
            let p = pipelines_url_spec(server, project, branch);
            let j = jobs_url_spec(server, project, id);
            &&& t.len() == 0 || t.last() != '/'
            &&& p.subrange(0, t.len() as int) == t
            &&& p.subrange(t.len() as int, t.len() + 17int) == "/api/v4/projects/"@
            &&& j.subrange(0, t.len() as int) == t
            &&& j.subrange(t.len() as int, t.len() + 17int) == "/api/v4/projects/"@
        }),
{
    reveal_strlit("/api/v4/projects/");
    lemma_trim_slashes(server);
    let t = trim_slashes(server);
    let a = "/api/v4/projects/"@;
    let e = percent_encoded(encode_utf8(project));
    let p = pipelines_url_spec(server, project, branch);
    let j = jobs_url_spec(server, project, id);
    assert(p =~= t + a + (e + "/pipelines?ref="@ + branch));
    assert(j =~= t + a + (e + "/pipelines/"@ + decimal(id) + "/jobs"@));
    assert(p.subrange(0, t.len() as int) =~= t);
    assert(p.subrange(t.len() as int, t.len() + 17int) =~= a);
    assert(j.subrange(0, t.len() as int) =~= t);
    assert(j.subrange(t.len() as int, t.len() + 17int) =~= a);
}

/// Relies on `urlencoding::encode`: it percent-encodes every byte of the
/// string's UTF-8 form but ASCII letters, digits and `-`, `.`, `_`, `~`,
/// with uppercase hex digits.
#[verifier::external_body]
fn percent_encode(s: &str) -> (r: String)
    ensures
        r@ == percent_encoded(s.spec_bytes()),
{
    urlencoding::encode(s).into_owned()
}

/// `s` without the slashes at its end.
pub fn trim_trailing_slashes(s: &str) -> (r: String)
    ensures
        r@ == trim_slashes(s@),
{
    let mut end: usize = s.unicode_len();
    assert(s@.subrange(0, end as int) =~= s@);
    while end > 0 && s.get_char(end - 1) == '/'
        invariant
            end <= s@.len(),
            trim_slashes(s@) == trim_slashes(s@.subrange(0, end as int)),
        decreases end,
    {
        assert(s@.subrange(0, end as int).drop_last() =~= s@.subrange(0, end - 1));
        end = end - 1;
    }
    String::from_str(s.substring_char(0, end))
}

/// The one-character string of a decimal digit.
fn digit_str(d: u64) -> (r: &'static str)
    requires
        d < 10,
    ensures
        r@ == seq![digit_char(d as nat)],
{
    proof {
        reveal_strlit("0");
        reveal_strlit("1");
        reveal_strlit("2");
        reveal_strlit("3");
        reveal_strlit("4");
        reveal_strlit("5");
        reveal_strlit("6");
        reveal_strlit("7");
        reveal_strlit("8");
        reveal_strlit("9");
    }
    let r = if d == 0 {
        "0"
    } else if d == 1 {
        "1"
    } else if d == 2 {
        "2"
    } else if d == 3 {
        "3"
    } else if d == 4 {
        "4"
    } else if d == 5 {
        "5"
    } else if d == 6 {
        "6"
    } else if d == 7 {
        "7"
    } else if d == 8 {
        "8"
    } else {
        "9"
    };
    assert(r@ =~= seq![digit_char(d as nat)]);
    r
}

/// The decimal form of `value`.
pub fn decimal_string(value: u64) -> (r: String)
    ensures
        r@ == decimal(value as nat),
{
    let mut n: u64 = value;
    let mut acc = String::new();
    loop
        invariant
            decimal(value as nat) == decimal(n as nat) + acc@,
        decreases n,
    {
        let d = digit_str(n % 10);
        if n < 10 {
            assert(decimal(n as nat) == d@);
            return String::from_str(d).concat(acc.as_str());
        }
        acc = String::from_str(d).concat(acc.as_str());
        assert(decimal(n as nat) == decimal((n / 10) as nat) + d@);
        assert(decimal(value as nat) =~= decimal((n / 10) as nat) + acc@);
        n = n / 10;
    }
}

/// The URL of the configured project on the configured server.
pub fn project_url(config: &GitLabConfig) -> (r: String)
    ensures
        r@ == project_url_spec(config.server@, config.project_name@),
{
    let mut u = trim_trailing_slashes(config.server.as_str());
    u.append("/api/v4/projects/");
    let p = percent_encode(config.project_name.as_str());
    u.append(p.as_str());
    u
}

/// The URL that lists the pipelines of `branch`, newest first.
pub fn pipelines_url(config: &GitLabConfig, branch: &str) -> (r: String)
    ensures
        r@ == pipelines_url_spec(config.server@, config.project_name@, branch@),
{
    let mut u = project_url(config);
    u.append("/pipelines?ref=");
    u.append(branch);
    u
}

/// The URL that lists the jobs of the pipeline `pipeline_id`.
pub fn jobs_url(config: &GitLabConfig, pipeline_id: u64) -> (r: String)
    ensures
        r@ == jobs_url_spec(config.server@, config.project_name@, pipeline_id as nat),
{
    let mut u = project_url(config);
    u.append("/pipelines/");
    let id = decimal_string(pipeline_id);
    u.append(id.as_str());
    u.append("/jobs");
    u
}

} // verus!
