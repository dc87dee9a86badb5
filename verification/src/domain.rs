//! Validated value types: subscriber name, subscriber email and the
//! subscription token, each a wrapper that can only be built from input that
//! passed its syntactic rules.

use rand::Rng;
use vstd::prelude::*;
use vstd::string::StrSliceExecFns;
use vstd::string::StringExecFns;

verus! {

/// Exact length of every subscription token.
pub const TOKEN_LENGTH: usize = 25;

/// Upper bound on the length of a subscriber name, in characters.
pub const NAME_MAX_LENGTH: usize = 256;

/// The characters a subscription token may consist of: ASCII digits and
/// ASCII letters of either case.
pub open spec fn is_token_char(c: char) -> bool {
    ||| 48 <= (c as u32) && (c as u32) <= 57  // '0' ..= '9'
    ||| 65 <= (c as u32) && (c as u32) <= 90  // 'A' ..= 'Z'
    ||| 97 <= (c as u32) && (c as u32) <= 122  // 'a' ..= 'z'
}

/// A well-formed token string: exactly `TOKEN_LENGTH` alphanumeric characters.
pub open spec fn is_valid_token(s: Seq<char>) -> bool {
    &&& s.len() == TOKEN_LENGTH
    &&& forall|i: int| 0 <= i < s.len() ==> is_token_char(#[trigger] s[i])
}

/// ASCII whitespace, the characters a name must not consist of exclusively.
pub open spec fn is_space_char(c: char) -> bool {
    c == ' ' || c == '\t' || c == '\n' || c == '\r'
}

/// Characters a subscriber name must not contain: markup and quoting
/// characters, and raw control characters.
pub open spec fn is_forbidden_name_char(c: char) -> bool {
    ||| c == '/'
    ||| c == '('
    ||| c == ')'
    ||| c == '"'
    ||| c == '<'
    ||| c == '>'
    ||| c == '\\'
    ||| c == '{'
    ||| c == '}'
    ||| (c as u32) < 32
    ||| (c as u32) == 127
}

/// A well-formed subscriber name: at most `NAME_MAX_LENGTH` characters, at
/// least one character that is not whitespace, and no forbidden character.
pub open spec fn is_valid_name(s: Seq<char>) -> bool {
    &&& s.len() <= NAME_MAX_LENGTH
    &&& exists|i: int| 0 <= i < s.len() && !is_space_char(#[trigger] s[i])
    &&& forall|i: int| 0 <= i < s.len() ==> !is_forbidden_name_char(#[trigger] s[i])
}

/// `a` is the position of the one `@` of `s`, the local part before it is
/// nonempty, and the domain after it contains at least one dot.
pub open spec fn email_split_ok(s: Seq<char>, a: int) -> bool {
    &&& 1 <= a < s.len()
    &&& s[a] == '@'
    &&& forall|i: int| 0 <= i < s.len() && i != a ==> #[trigger] s[i] != '@'
    &&& exists|j: int| a < j < s.len() && #[trigger] s[j] == '.'
}

/// A well-formed email address: `local-part@domain` with a nonempty local
/// part, exactly one `@`, at least one dot in the domain, and no whitespace.
pub open spec fn is_valid_email(s: Seq<char>) -> bool {
    &&& forall|i: int| 0 <= i < s.len() ==> !is_space_char(#[trigger] s[i])
    &&& exists|a: int| email_split_ok(s, a)
}

fn is_token_char_exec(c: char) -> (r: bool)
    ensures
        r == is_token_char(c),
{
    let u: u32 = c as u32;
    (48 <= u && u <= 57) || (65 <= u && u <= 90) || (97 <= u && u <= 122)
}

fn is_space_char_exec(c: char) -> (r: bool)
    ensures
        r == is_space_char(c),
{
    c == ' ' || c == '\t' || c == '\n' || c == '\r'
}

fn is_forbidden_name_char_exec(c: char) -> (r: bool)
    ensures
        r == is_forbidden_name_char(c),
{
    let u: u32 = c as u32;
    c == '/' || c == '(' || c == ')' || c == '"' || c == '<' || c == '>' || c == '\\' || c == '{'
        || c == '}' || u < 32 || u == 127
}

/// A validated subscriber name.
#[derive(Debug)]
pub struct SubscriberName {
    name: String,
}

impl View for SubscriberName {
    type V = Seq<char>;

    closed spec fn view(&self) -> Seq<char> {
        self.name@
    }
}

impl SubscriberName {
    /// Accepts exactly the strings satisfying `is_valid_name`.
    pub fn parse(s: String) -> (r: Result<SubscriberName, String>)
        ensures
            r is Ok <==> is_valid_name(s@),
            r matches Ok(n) ==> n@ == s@,
            r matches Err(m) ==> m@ == "Invalid subscriber name."@,
    {
        let len = s.as_str().unicode_len();
        if len > NAME_MAX_LENGTH {
            return Err(String::from_str("Invalid subscriber name."));
        }
        let mut has_visible = false;
        let mut i: usize = 0;
        while i < len
            invariant
                i <= len,
                len == s@.len(),
                len <= NAME_MAX_LENGTH,
                has_visible <==> exists|j: int| 0 <= j < i && !is_space_char(#[trigger] s@[j]),
                forall|j: int| 0 <= j < i ==> !is_forbidden_name_char(#[trigger] s@[j]),
            decreases len - i,
        {
            let c = s.as_str().get_char(i);
            if is_forbidden_name_char_exec(c) {
                return Err(String::from_str("Invalid subscriber name."));
            }
            if !is_space_char_exec(c) {
                has_visible = true;
            }
            i += 1;
        }
        if has_visible {
            Ok(SubscriberName { name: s })
        } else {
            Err(String::from_str("Invalid subscriber name."))
        }
    }

    pub fn as_str(&self) -> (r: &str)
        ensures
            r@ == self@,
    {
        self.name.as_str()
    }
}

/// A validated subscriber email address.
#[derive(Debug)]
pub struct SubscriberEmail {
    email: String,
}

impl View for SubscriberEmail {
    type V = Seq<char>;

    closed spec fn view(&self) -> Seq<char> {
        self.email@
    }
}

impl SubscriberEmail {
    /// Accepts exactly the strings satisfying `is_valid_email`.
    pub fn parse(s: String) -> (r: Result<SubscriberEmail, String>)
        ensures
            r is Ok <==> is_valid_email(s@),
            r matches Ok(e) ==> e@ == s@,
            r matches Err(m) ==> m@ == "Invalid subscriber email."@,
    {
        let len = s.as_str().unicode_len();
        let mut at_index: usize = 0;
        let mut has_at = false;
        let mut i: usize = 0;
        while i < len
            invariant
                i <= len,
                len == s@.len(),
                forall|j: int| 0 <= j < i ==> !is_space_char(#[trigger] s@[j]),
                has_at ==> at_index < i && s@[at_index as int] == '@',
                forall|j: int|
                    0 <= j < i && (!has_at || j != at_index) ==> #[trigger] s@[j] != '@',
            decreases len - i,
        {
            let c = s.as_str().get_char(i);
            if is_space_char_exec(c) {
                return Err(String::from_str("Invalid subscriber email."));
            }
            if c == '@' {
                if has_at {
                    proof {
                        assert forall|a: int| !email_split_ok(s@, a) by {
                            if email_split_ok(s@, a) {
                                if a != at_index {
                                    assert(s@[at_index as int] != '@');
                                } else {
                                    assert(s@[i as int] != '@');
                                }
                            }
                        }
                    }
                    return Err(String::from_str("Invalid subscriber email."));
                }
                at_index = i;
                has_at = true;
            }
            i += 1;
        }
        if !has_at {
            return Err(String::from_str("Invalid subscriber email."));
        }
        if at_index == 0 {
            return Err(String::from_str("Invalid subscriber email."));
        }
        let mut j: usize = at_index + 1;
        let mut has_dot = false;
        while j < len && !has_dot
            invariant
                at_index < j <= len,
                len == s@.len(),
                has_dot ==> exists|k: int| at_index < k < len && #[trigger] s@[k] == '.',
                !has_dot ==> forall|k: int| at_index < k < j ==> #[trigger] s@[k] != '.',
            decreases len - j + (if has_dot { 0int } else { 1int }),
        {
            if s.as_str().get_char(j) == '.' {
                has_dot = true;
            }
            j += 1;
        }
        if !has_dot {
            proof {
                assert forall|a: int| !email_split_ok(s@, a) by {
                    if email_split_ok(s@, a) {
                        if a != at_index {
                            assert(s@[a] != '@');
                        }
                    }
                }
            }
            return Err(String::from_str("Invalid subscriber email."));
        }
        proof {
            assert(email_split_ok(s@, at_index as int));
        }
        Ok(SubscriberEmail { email: s })
    }

    pub fn as_str(&self) -> (r: &str)
        ensures
            r@ == self@,
    {
        self.email.as_str()
    }
}

/// A validated subscription request: the parsed name and email of one form
/// submission.
#[derive(Debug)]
pub struct NewSubscriber {
    pub email: SubscriberEmail,
    pub name: SubscriberName,
}

/// A validated single-use confirmation token.
#[derive(Debug)]
pub struct SubscriptionToken {
    token: String,
}

impl View for SubscriptionToken {
    type V = Seq<char>;

    closed spec fn view(&self) -> Seq<char> {
        self.token@
    }
}

/// Relies on rand's `Alphanumeric` distribution: every sampled byte is one of
/// `A`-`Z`, `a`-`z`, `0`-`9`, so the collected string has exactly `len`
/// alphanumeric characters.
#[verifier::external_body]
fn sample_alphanumeric_chars(len: usize) -> (r: String)
    ensures
        r@.len() == len as nat,
        forall|i: int| 0 <= i < r@.len() ==> is_token_char(#[trigger] r@[i]),
{
    let mut rng = rand::thread_rng();
    std::iter::repeat_with(|| rng.sample(rand::distributions::Alphanumeric))
        .map(char::from)
        .take(len)
        .collect()
}

impl SubscriptionToken {
    /// Draws a fresh token: `TOKEN_LENGTH` characters sampled uniformly from
    /// the alphanumeric alphabet by a cryptographically suitable source.
    pub fn generate() -> (r: Self)
        ensures
            is_valid_token(r@),
    {
        let token = sample_alphanumeric_chars(TOKEN_LENGTH);
        SubscriptionToken { token }
    }

    /// Accepts exactly the strings satisfying `is_valid_token`.
    pub fn parse(token: String) -> (r: Result<Self, String>)
        ensures
            r is Ok <==> is_valid_token(token@),
            r matches Ok(t) ==> t@ == token@,
            token@.len() != TOKEN_LENGTH ==> (r matches Err(m) && m@ == "Invalid token length."@),
    {
        let len = token.as_str().unicode_len();
        if len != TOKEN_LENGTH {
            return Err(String::from_str("Invalid token length."));
        }
        let mut i: usize = 0;
        while i < len
            invariant
                i <= len,
                len == token@.len(),
                len == TOKEN_LENGTH,
                forall|j: int| 0 <= j < i ==> is_token_char(#[trigger] token@[j]),
            decreases len - i,
        {
            let c = token.as_str().get_char(i);
            if !is_token_char_exec(c) {
                return Err(String::from_str("Invalid character in token."));
            }
            i += 1;
        }
        Ok(SubscriptionToken { token })
    }

    pub fn as_str(&self) -> (r: &str)
        ensures
            r@ == self@,
    {
        self.token.as_str()
    }
}

/// Law: every token the generator can produce is accepted by `parse` — the
/// generator's guarantee is exactly the parser's success condition.
pub proof fn lemma_generated_token_parses(
    generated: Seq<char>,
    parsed: Result<SubscriptionToken, String>,
)
    requires
        is_valid_token(generated),  // what `generate` ensures of its result
        parsed is Ok <==> is_valid_token(generated),  // what `parse` ensures on that string
    ensures
        parsed is Ok,
{
}

} // verus!
