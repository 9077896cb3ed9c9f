//! Content-addressed derivation of the output file path.
//!
//! When the user supplies no explicit path, the file name combines the
//! command (rendered as one string with spaces replaced by dashes) with the
//! first eight hexadecimal characters of a digest of the captured output,
//! under an `ansi-senor` subdirectory of the system temporary directory.

use vstd::prelude::*;
use vstd::string::*;
use vstd::utf8::encode_utf8;

verus! {

/// What md5::compute returns for the given bytes: the digest depends on the
/// bytes alone.
pub uninterp spec fn md5_of(bytes: Seq<u8>) -> Seq<u8>;

/// Relies on md5::compute: the digest is a function of the input bytes
/// alone, and is exactly 16 bytes long.
#[verifier::external_body]
fn md5_digest(bytes: &[u8]) -> (r: Vec<u8>)
    ensures
        r@ == md5_of(bytes@),
        r@.len() == 16,
{
    md5::compute(bytes).0.to_vec()
}

/// The character for one lowercase hexadecimal digit.
pub open spec fn hex_digit(d: nat) -> char {
    if d < 10 {
        crate::decimal::digit_char(d)
    } else if d == 10 {
        'a'
    } else if d == 11 {
        'b'
    } else if d == 12 {
        'c'
    } else if d == 13 {
        'd'
    } else if d == 14 {
        'e'
    } else {
        'f'
    }
}

/// The lowercase hexadecimal rendering of a byte string, two digits per
/// byte, high digit first.
pub open spec fn hex_of(bytes: Seq<u8>) -> Seq<char>
    decreases bytes.len(),
{
    if bytes.len() == 0 {
        Seq::<char>::empty()
    } else {
        hex_of(bytes.drop_last()) + seq![
            hex_digit((bytes.last() / 16) as nat),
            hex_digit((bytes.last() % 16) as nat),
        ]
    }
}

/// The hexadecimal rendering has two characters per byte.
pub proof fn lemma_hex_of_len(bytes: Seq<u8>)
    ensures
        hex_of(bytes).len() == 2 * bytes.len(),
    decreases bytes.len(),
{
    if bytes.len() > 0 {
        lemma_hex_of_len(bytes.drop_last());
    }
}

fn hex_digit_str(d: u8) -> (r: &'static str)
    requires
        d < 16,
    ensures
        r@ == seq![hex_digit(d as nat)],
{
    if d < 10 {
        crate::decimal::digit_str(d as u64)
    } else {
        proof {
            reveal_strlit("a");
            reveal_strlit("b");
            reveal_strlit("c");
            reveal_strlit("d");
            reveal_strlit("e");
            reveal_strlit("f");
            assert("a"@ =~= seq![hex_digit(10)]);
            assert("b"@ =~= seq![hex_digit(11)]);
            assert("c"@ =~= seq![hex_digit(12)]);
            assert("d"@ =~= seq![hex_digit(13)]);
            assert("e"@ =~= seq![hex_digit(14)]);
            assert("f"@ =~= seq![hex_digit(15)]);
        }
        if d == 10 {
            "a"
        } else if d == 11 {
            "b"
        } else if d == 12 {
            "c"
        } else if d == 13 {
            "d"
        } else if d == 14 {
            "e"
        } else {
            "f"
        }
    }
}

/// Renders a byte string in lowercase hexadecimal.
pub fn to_hex(bytes: &Vec<u8>) -> (r: String)
    ensures
        r@ == hex_of(bytes@),
{
    let mut out = String::new();
    let n = bytes.len();
    let mut i: usize = 0;
    proof {
        assert(hex_of(bytes@.take(0)) =~= Seq::<char>::empty());
    }
    while i < n
        invariant
            n == bytes@.len(),
            i <= n,
            out@ == hex_of(bytes@.take(i as int)),
        decreases n - i,
    {
        let b = bytes[i];
        proof {
            assert(bytes@.take(i + 1).drop_last() =~= bytes@.take(i as int));
            assert(bytes@.take(i + 1).last() == bytes@[i as int]);
        }
        out.append(hex_digit_str(b / 16));
        out.append(hex_digit_str(b % 16));
        proof {
            assert(out@ =~= hex_of(bytes@.take(i + 1)));
        }
        i = i + 1;
    }
    proof {
        assert(bytes@.take(n as int) =~= bytes@);
    }
    out
}

/// The same characters with every space replaced by a dash.
pub open spec fn dash_spec(s: Seq<char>) -> Seq<char> {
    Seq::new(s.len(), |i: int| if s[i] == ' ' { '-' } else { s[i] })
}

/// Replaces every space with a dash.
pub fn dashify(s: &str) -> (r: String)
    ensures
        r@ == dash_spec(s@),
{
    let mut out = String::new();
    let n = s.unicode_len();
    let mut i: usize = 0;
    let mut seg: usize = 0;
    while i < n
        invariant
            n == s@.len(),
            seg <= i <= n,
            out@ == dash_spec(s@.subrange(0, seg as int)),
            forall|j: int| seg <= j < i ==> s@[j] != ' ',
        decreases n - i,
    {
        if s.get_char(i) == ' ' {
            let piece = s.substring_char(seg, i);
            out.append(piece);
            out.append("-");
            proof {
                reveal_strlit("-");
                assert("-"@ =~= seq!['-']);
                assert(out@ =~= dash_spec(s@.subrange(0, i + 1)));
            }
            seg = i + 1;
        }
        i = i + 1;
    }
    let tail = s.substring_char(seg, n);
    out.append(tail);
    proof {
        assert(out@ =~= dash_spec(s@));
    }
    out
}

/// The command rendered as one string: its parts joined by single spaces.
pub open spec fn joined_spec(cmd: Seq<Seq<char>>) -> Seq<char>
    decreases cmd.len(),
{
    if cmd.len() == 0 {
        Seq::<char>::empty()
    } else if cmd.len() == 1 {
        cmd[0]
    } else {
        joined_spec(cmd.drop_last()) + " "@ + cmd.last()
    }
}

/// Joins the command's parts with single spaces.
pub fn join_spaces(command: &Vec<String>) -> (r: String)
    ensures
        r@ == joined_spec(command.deep_view()),
{
    let ghost all = command.deep_view();
    if command.len() == 0 {
        proof {
            assert(all.len() == 0);
        }
        return String::new();
    }
    proof {
        assert(all[0] == command[0]@);
    }
    let mut out = String::from_str(command[0].as_str());
    let n = command.len();
    let mut i: usize = 1;
    proof {
        assert(all.take(1) =~= seq![all[0]]);
        assert(joined_spec(all.take(1)) == all[0]);
    }
    while i < n
        invariant
            n == command.len(),
            1 <= i <= n,
            all == command.deep_view(),
            out@ == joined_spec(all.take(i as int)),
        decreases n - i,
    {
        proof {
            assert(all[i as int] == command[i as int]@);
            assert(all.take(i + 1).drop_last() =~= all.take(i as int));
            assert(all.take(i + 1).last() == all[i as int]);
        }
        out.append(" ");
        out.append(command[i].as_str());
        i = i + 1;
    }
    proof {
        assert(all.take(n as int) =~= all);
    }
    out
}

/// The derived file name: the dashed command, a dash, the first eight
/// hexadecimal characters of the digest of the output text's bytes, and the
/// `.html` extension.
pub open spec fn derived_filename_spec(cmd: Seq<Seq<char>>, text: Seq<char>) -> Seq<char> {
    dash_spec(joined_spec(cmd)) + "-"@ + hex_of(md5_of(encode_utf8(text))).take(8) + ".html"@
}

/// The derived file name is a pure function of the command and the captured
/// output: a rerun with an identical command and identical output derives
/// the identical name, wherever the run happens.
pub proof fn lemma_derived_filename_deterministic(
    cmd1: Seq<Seq<char>>,
    text1: Seq<char>,
    cmd2: Seq<Seq<char>>,
    text2: Seq<char>,
)
    requires
        cmd1 == cmd2,
        text1 == text2,
    ensures
        derived_filename_spec(cmd1, text1) == derived_filename_spec(cmd2, text2),
{
}

/// Resolves where the document is written: an explicit user path is taken
/// verbatim; otherwise the name is derived from the command and the captured
/// output, under the tool's subdirectory of the given temporary directory.
pub fn resolve_output_path(
    command: &Vec<String>,
    output_text: &str,
    custom: Option<String>,
    temp_dir: &str,
) -> (r: String)
    ensures
        custom matches Some(p) ==> r@ == p@,
        custom is None ==> r@ == temp_dir@ + "/ansi-senor/"@ + derived_filename_spec(
            command.deep_view(),
            output_text@,
        ),
{
    match custom {
        Some(p) => p,
        None => {
            let digest = md5_digest(output_text.as_bytes());
            let hex = to_hex(&digest);
            proof {
                lemma_hex_of_len(digest@);
            }
            let short = hex.as_str().substring_char(0, 8);
            let joined = join_spaces(command);
            let dashed = dashify(joined.as_str());
            let mut r = String::from_str(temp_dir);
            r.append("/ansi-senor/");
            r.append(dashed.as_str());
            r.append("-");
            r.append(short);
            r.append(".html");
            proof {
                assert(hex@.subrange(0, 8) =~= hex_of(md5_of(encode_utf8(output_text@))).take(8));
            }
            r
        },
    }
}

} // verus!
