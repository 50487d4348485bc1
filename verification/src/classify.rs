//! Routing of an alert by the literal token it begins with.

use vstd::prelude::*;

verus! {

/// The path an alert takes through the bridge.
#[derive(Clone, Copy, Debug, PartialEq, Eq, Structural)]
pub enum AlertKind {
    Problem,
    Resolved,
    Unknown,
}

/// Why an alert is refused before any network call.
#[derive(Clone, Copy, Debug, PartialEq, Eq, Structural)]
pub enum InputError {
    Empty,
    UnknownPrefix,
}

/// The characters of the token that opens a problem alert.
pub open spec fn problem_token() -> Seq<char> {
    seq!['P', 'r', 'o', 'b', 'l', 'e', 'm']
}

/// The characters of the token that opens a recovery alert.
pub open spec fn resolved_token() -> Seq<char> {
    seq!['R', 'e', 's', 'o', 'l', 'v', 'e', 'd']
}

/// The kind of a message: case-sensitive, anchored at the first character,
/// nothing trimmed, the problem token tried first.
pub open spec fn classify_spec(m: Seq<char>) -> AlertKind {
    if problem_token().is_prefix_of(m) {
        AlertKind::Problem
    } else if resolved_token().is_prefix_of(m) {
        AlertKind::Resolved
    } else {
        AlertKind::Unknown
    }
}

/// What the input check answers for a message.
pub open spec fn check_input_spec(m: Seq<char>) -> Result<AlertKind, InputError> {
    if m.len() == 0 {
        Err(InputError::Empty)
    } else if classify_spec(m) == AlertKind::Unknown {
        Err(InputError::UnknownPrefix)
    } else {
        Ok(classify_spec(m))
    }
}

/// The first `n` characters of `m`, or all of it where it is shorter.
pub open spec fn leading(m: Seq<char>, n: nat) -> Seq<char> {
    if m.len() <= n {
        m
    } else {
        m.subrange(0, n as int)
    }
}

/// Whether `s` begins with `token`, character for character.
pub fn has_prefix(s: &str, token: &str) -> (r: bool)
    ensures
        r == token@.is_prefix_of(s@),
{
    let n: usize = token.unicode_len();
    let m: usize = s.unicode_len();
    if n > m {
        return false;
    }
    let mut i: usize = 0;
    while i < n
        invariant
            i <= n,
            n == token@.len(),
            m == s@.len(),
            n <= m,
            forall|j: int| 0 <= j < i ==> s@[j] == token@[j],
        decreases n - i,
    {
        if s.get_char(i) != token.get_char(i) {
            assert(s@.subrange(0, n as int)[i as int] == s@[i as int]);
            return false;
        }
        i += 1;
    }
    assert(token@ =~= s@.subrange(0, n as int));
    true
}

/// Selects the path for an alert.
pub fn classify(message: &str) -> (kind: AlertKind)
    ensures
        kind == classify_spec(message@),
{
    proof {
        reveal_strlit("Problem");
        reveal_strlit("Resolved");
        assert("Problem"@ =~= problem_token());
        assert("Resolved"@ =~= resolved_token());
    }
    if has_prefix(message, "Problem") {
        AlertKind::Problem
    } else if has_prefix(message, "Resolved") {
        AlertKind::Resolved
    } else {
        AlertKind::Unknown
    }
}

/// Accepts a message that can be routed and says why another cannot.
pub fn check_input(message: &str) -> (r: Result<AlertKind, InputError>)
    ensures
        r == check_input_spec(message@),
{
    if message.unicode_len() == 0 {
        return Err(InputError::Empty);
    }
    match classify(message) {
        AlertKind::Unknown => Err(InputError::UnknownPrefix),
        kind => Ok(kind),
    }
}

/// The diagnostic shown for a refused message.
pub open spec fn input_diagnostic(e: InputError) -> Seq<char> {
    match e {
        InputError::Empty => "alert message is empty; it must start with Problem or Resolved"@,
        InputError::UnknownPrefix => "alert message must start with Problem or Resolved"@,
    }
}

impl InputError {
    /// The format requirement, as text for the operator.
    pub fn describe(&self) -> (text: String)
        ensures
            text@ == input_diagnostic(*self),
    {
        match self {
            InputError::Empty => String::from_str(
                "alert message is empty; it must start with Problem or Resolved",
            ),
            InputError::UnknownPrefix => String::from_str(
                "alert message must start with Problem or Resolved",
            ),
        }
    }
}

/// Routing never reads past the eighth character: two messages that agree on
/// their leading eight characters take the same path.
pub proof fn lemma_routing_reads_leading_chars(a: Seq<char>, b: Seq<char>)
    requires
        leading(a, 8) == leading(b, 8),
    ensures
        classify_spec(a) == classify_spec(b),
{
    lemma_prefix_of_leading(problem_token(), a, 8);
    lemma_prefix_of_leading(problem_token(), b, 8);
    lemma_prefix_of_leading(resolved_token(), a, 8);
    lemma_prefix_of_leading(resolved_token(), b, 8);
}

/// A token of at most `n` characters opens a message exactly when it opens
/// the message's leading `n` characters.
pub proof fn lemma_prefix_of_leading(token: Seq<char>, m: Seq<char>, n: nat)
    requires
        token.len() <= n,
    ensures
        token.is_prefix_of(m) == token.is_prefix_of(leading(m, n)),
{
    if m.len() > n {
        let head = m.subrange(0, n as int);
        if token.len() <= m.len() {
            assert(head.subrange(0, token.len() as int) =~= m.subrange(0, token.len() as int));
        }
    }
}

/// A message takes the problem path exactly when its first seven characters
/// spell the problem token, the recovery path exactly when it does not and
/// its first eight spell the recovery token, and is unknown otherwise.
pub proof fn lemma_routing_by_token(m: Seq<char>)
    ensures
        classify_spec(m) == AlertKind::Problem <==> (m.len() >= 7 && m.subrange(0, 7)
            =~= problem_token()),
        classify_spec(m) == AlertKind::Resolved <==> (m.len() >= 8 && m.subrange(0, 8)
            =~= resolved_token()),
{
    if m.len() >= 8 && m.subrange(0, 8) =~= resolved_token() {
        assert(m.subrange(0, 8)[0] == 'R');
        if m.subrange(0, 7) =~= problem_token() {
            assert(m.subrange(0, 7)[0] == 'P');
        }
    }
}

} // verus!
