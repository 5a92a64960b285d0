use crate::error::LaunchError;
use vstd::prelude::*;
use vstd::string::*;

verus! {

/// The character sequences that a list of strings holds.
pub open spec fn texts(v: Seq<String>) -> Seq<Seq<char>> {
    v.map_values(|s: String| s@)
}

/// `pat` occurs in `s` starting at position `i`.
pub open spec fn occurs_at(s: Seq<char>, pat: Seq<char>, i: int) -> bool {
    0 <= i && i + pat.len() <= s.len() && s.subrange(i, i + pat.len()) =~= pat
}

/// `pat` occurs somewhere in `s`.
pub open spec fn contains_seq(s: Seq<char>, pat: Seq<char>) -> bool {
    exists|i: int| #[trigger] occurs_at(s, pat, i)
}

/// The product identifier looked for in the invocation name.
pub open spec fn product_id() -> Seq<char> {
    "package-installer"@
}

/// The short alias of the tool.
pub open spec fn alias() -> Seq<char> {
    "pi"@
}

/// The launcher was invoked under a name that carries the product identifier
/// or the alias.
pub open spec fn invoked_by_name(name: Seq<char>) -> bool {
    contains_seq(name, product_id()) || contains_seq(name, alias())
}

/// The first argument after the invocation name is the alias itself.
pub open spec fn alias_first(args: Seq<Seq<char>>) -> bool {
    args.len() > 1 && args[1] == alias()
}

/// The arguments to hand over, for a full argument list whose first entry is
/// the invocation name; `None` when the invocation does not ask for the tool.
pub open spec fn forwarded(args: Seq<Seq<char>>) -> Option<Seq<Seq<char>>> {
    if args.len() == 0 {
        None
    } else if invoked_by_name(args[0]) {
        Some(args.subrange(1, args.len() as int))
    } else if alias_first(args) {
        Some(args.subrange(2, args.len() as int))
    } else {
        None
    }
}

fn occurs_at_exec(s: &str, n: usize, pat: &str, m: usize, i: usize) -> (r: bool)
    requires
        n == s@.len(),
        m == pat@.len(),
        i + m <= n,
    ensures
        r == occurs_at(s@, pat@, i as int),
{
    let mut j: usize = 0;
    while j < m
        invariant
            n == s@.len(),
            m == pat@.len(),
            i + m <= n,
            j <= m,
            forall|t: int| 0 <= t < j ==> s@[i + t] == pat@[t],
        decreases m - j,
    {
        if s.get_char(i + j) != pat.get_char(j) {
            assert(s@.subrange(i as int, i + m)[j as int] != pat@[j as int]);
            return false;
        }
        j = j + 1;
    }
    assert(s@.subrange(i as int, i + m) =~= pat@);
    true
}

/// Whether `pat` occurs in `s`.
pub fn contains_text(s: &str, pat: &str) -> (r: bool)
    ensures
        r == contains_seq(s@, pat@),
{
    let n = s.unicode_len();
    let m = pat.unicode_len();
    if m > n {
        assert(forall|k: int| !occurs_at(s@, pat@, k));
        return false;
    }
    let mut i: usize = 0;
    while i <= n - m
        invariant
            n == s@.len(),
            m == pat@.len(),
            m <= n,
            i <= n - m + 1,
            forall|k: int| 0 <= k < i ==> !occurs_at(s@, pat@, k),
        decreases n - m + 1 - i,
    {
        if occurs_at_exec(s, n, pat, m, i) {
            return true;
        }
        i = i + 1;
    }
    assert(forall|k: int| !occurs_at(s@, pat@, k));
    false
}

/// Decides whether this invocation is meant for the tool, and if so which
/// arguments it hands over.
///
/// `args` is the full argument list, invocation name first. When the name
/// carries the product identifier or the alias, everything after the name is
/// handed over; when instead the first argument is the alias, everything
/// after the alias is; otherwise the invocation is not recognised.
pub fn detect_intent(args: &Vec<String>) -> (r: Result<Vec<String>, LaunchError>)
    ensures
        forwarded(texts(args@)) is None <==> r is Err,
        r is Err ==> r == Err::<Vec<String>, LaunchError>(LaunchError::IntentNotRecognized),
        r is Ok ==> forwarded(texts(args@)) == Some(texts(r->Ok_0@)),
{
    if args.len() == 0 {
        return Err(LaunchError::IntentNotRecognized);
    }
    let name = args[0].as_str();
    let skip: usize = if contains_text(name, "package-installer") || contains_text(name, "pi") {
        1
    } else if args.len() > 1 && args[1] == String::from_str("pi") {
        2
    } else {
        return Err(LaunchError::IntentNotRecognized);
    };
    let mut out: Vec<String> = Vec::new();
    let mut i: usize = skip;
    while i < args.len()
        invariant
            skip <= i <= args.len(),
            out@ =~= args@.subrange(skip as int, i as int),
        decreases args.len() - i,
    {
        out.push(args[i].clone());
        i = i + 1;
    }
    assert(texts(out@) =~= texts(args@).subrange(skip as int, args.len() as int));
    Ok(out)
}

/// An invocation name that carries the product identifier or the alias is
/// always a request for the tool, whatever arguments follow it, and hands over
/// every argument after the name, in order.
pub proof fn lemma_named_invocation_forwards(args: Seq<Seq<char>>)
    requires
        args.len() >= 1,
        invoked_by_name(args[0]),
    ensures
        forwarded(args) == Some(args.subrange(1, args.len() as int)),
{
}

/// An invocation name without the identifier or the alias, followed by a first
/// argument other than the alias, is not a request for the tool.
pub proof fn lemma_unrelated_invocation_refused(args: Seq<Seq<char>>)
    requires
        args.len() >= 1,
        !invoked_by_name(args[0]),
        args.len() < 2 || args[1] != alias(),
    ensures
        forwarded(args) is None,
{
}

/// When the alias comes as the first argument, it is consumed together with
/// the invocation name and the rest is handed over in order.
pub proof fn lemma_alias_argument_stripped(args: Seq<Seq<char>>)
    requires
        args.len() >= 2,
        !invoked_by_name(args[0]),
        args[1] == alias(),
    ensures
        forwarded(args) == Some(args.subrange(2, args.len() as int)),
{
}

} // verus!
