//! The commands of the command line, and the answers that the tool reads from
//! the user.
use vstd::prelude::*;

verus! {

/// Default path of the plain-text keyfile to encrypt.
pub const DEFAULT_KEYFILE_INPUT: &'static str = "./keyfile.key";

/// The parsed command line.
#[derive(Debug, Clone, PartialEq, Eq)]
pub struct Cli {
    /// The subcommand to run.
    pub command: Commands,
}

/// Available subcommands.
#[derive(Debug, Clone, PartialEq, Eq)]
pub enum Commands {
    /// Encrypt a keyfile with age.
    Encrypt {
        /// Path to the plain-text keyfile.
        input: String,
        /// Optional output path for the encrypted file.
        output: Option<String>,
    },
    /// Unlock KeePassXC using the encrypted keyfile.
    Unlock,
}

/// Whether `c` has the Unicode property White_Space (the characters that
/// `char::is_whitespace` and `str::trim` treat as whitespace).
pub open spec fn is_white_space(c: char) -> bool {
    let n = c as u32;
    ||| 0x09 <= n <= 0x0d
    ||| n == 0x20
    ||| n == 0x85
    ||| n == 0xa0
    ||| n == 0x1680
    ||| 0x2000 <= n <= 0x200a
    ||| n == 0x2028
    ||| n == 0x2029
    ||| n == 0x202f
    ||| n == 0x205f
    ||| n == 0x3000
}

/// Tests whether `c` has the Unicode property White_Space.
pub fn white_space(c: char) -> (b: bool)
    ensures
        b == is_white_space(c),
{
    let n = c as u32;
    (0x09 <= n && n <= 0x0d) || n == 0x20 || n == 0x85 || n == 0xa0 || n == 0x1680 || (0x2000
        <= n && n <= 0x200a) || n == 0x2028 || n == 0x2029 || n == 0x202f || n == 0x205f || n
        == 0x3000
}

/// An answer that says yes: once leading and trailing whitespace is trimmed,
/// it is the letter `y` in either case.
pub open spec fn is_affirmative(answer: Seq<char>) -> bool {
    exists|k: int|
        0 <= k < answer.len() && (answer[k] == 'y' || answer[k] == 'Y') && forall|j: int|
            0 <= j < answer.len() && j != k ==> is_white_space(#[trigger] answer[j])
}

/// Whether the user's answer to "delete the original keyfile? (y/n)" says yes.
pub fn confirms_deletion(answer: &str) -> (yes: bool)
    ensures
        yes == is_affirmative(answer@),
{
    let n = answer.unicode_len();
    let ghost s = answer@;
    // How many characters other than whitespace were seen (counting up to two),
    // where the first one was, and whether it is a `y`.
    let mut count: usize = 0;
    let mut pos: usize = 0;
    let mut first_is_y = false;
    let ghost mut second: int = 0;
    let mut i: usize = 0;
    while i < n
        invariant
            n == s.len(),
            s == answer@,
            i <= n,
            count <= 2,
            count == 0 ==> forall|j: int| 0 <= j < i ==> is_white_space(#[trigger] s[j]),
            count >= 1 ==> pos < i && !is_white_space(s[pos as int]),
            count == 1 ==> forall|j: int| 0 <= j < i && j != pos ==> is_white_space(#[trigger] s[j]),
            count == 1 ==> first_is_y == (s[pos as int] == 'y' || s[pos as int] == 'Y'),
            count == 2 ==> pos < second < i && !is_white_space(s[second]),
        decreases n - i,
    {
        let c = answer.get_char(i);
        if !white_space(c) {
            if count == 0 {
                count = 1;
                pos = i;
                first_is_y = c == 'y' || c == 'Y';
            } else if count == 1 {
                count = 2;
                proof {
                    second = i as int;
                }
            }
        }
        i = i + 1;
    }
    proof {
        assert(!is_white_space('y') && !is_white_space('Y'));
        if count == 0 {
            if is_affirmative(s) {
                let k = choose|k: int|
                    0 <= k < s.len() && (s[k] == 'y' || s[k] == 'Y') && forall|j: int|
                        0 <= j < s.len() && j != k ==> is_white_space(#[trigger] s[j]);
                assert(is_white_space(s[k]));
            }
        } else if count == 1 {
            if first_is_y {
                assert(is_affirmative(s));
            } else if is_affirmative(s) {
                let k = choose|k: int|
                    0 <= k < s.len() && (s[k] == 'y' || s[k] == 'Y') && forall|j: int|
                        0 <= j < s.len() && j != k ==> is_white_space(#[trigger] s[j]);
                if k != pos {
                    assert(is_white_space(s[k]));
                }
            }
        } else {
            if is_affirmative(s) {
                let k = choose|k: int|
                    0 <= k < s.len() && (s[k] == 'y' || s[k] == 'Y') && forall|j: int|
                        0 <= j < s.len() && j != k ==> is_white_space(#[trigger] s[j]);
                if k != pos {
                    assert(is_white_space(s[pos as int]));
                } else {
                    assert(is_white_space(s[second]));
                }
            }
        }
    }
    count == 1 && first_is_y
}

} // verus!
