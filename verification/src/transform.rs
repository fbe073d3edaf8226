//! The code transformer: an ordered table of literal replacements, applied
//! to the text of one component.

use crate::text::{from_chars, to_chars};
use vstd::prelude::*;
use vstd::string::*;

verus! {

/// One literal replacement: every occurrence of `pattern` becomes `with`.
#[derive(Debug, Clone, PartialEq, Eq)]
pub struct Replacement {
    pub pattern: String,
    pub with: String,
}

/// What a [`Replacement`] holds, as sequences of characters.
pub struct Rule {
    pub pattern: Seq<char>,
    pub with: Seq<char>,
}

impl View for Replacement {
    type V = Rule;

    open spec fn view(&self) -> Rule {
        Rule { pattern: self.pattern@, with: self.with@ }
    }
}

/// The views of a table of replacements, in order.
pub open spec fn rules_of(table: Seq<Replacement>) -> Seq<Rule> {
    Seq::new(table.len(), |i: int| table[i]@)
}

/// Whether `pattern` stands in `text` at index `at`.
pub open spec fn occurs_at(text: Seq<char>, pattern: Seq<char>, at: int) -> bool {
    0 <= at && at + pattern.len() <= text.len() && text.subrange(at, at + pattern.len())
        == pattern
}

/// Whether `pattern` stands anywhere in `text`.
pub open spec fn occurs(text: Seq<char>, pattern: Seq<char>) -> bool {
    exists|at: int| occurs_at(text, pattern, at)
}

/// `text` with every occurrence of `pattern` replaced by `with`. Occurrences
/// are found from left to right and do not overlap: the search goes on
/// behind what was replaced. An empty pattern occurs nowhere.
pub open spec fn replace_all(text: Seq<char>, pattern: Seq<char>, with: Seq<char>) -> Seq<char>
    decreases text.len(),
{
    if pattern.len() == 0 || text.len() < pattern.len() {
        text
    } else if text.take(pattern.len() as int) == pattern {
        with + replace_all(text.skip(pattern.len() as int), pattern, with)
    } else {
        seq![text[0]] + replace_all(text.skip(1), pattern, with)
    }
}

/// `text` after the rules were applied one after the other, in their order.
pub open spec fn apply_rules(text: Seq<char>, rules: Seq<Rule>) -> Seq<char>
    decreases rules.len(),
{
    if rules.len() == 0 {
        text
    } else {
        replace_all(apply_rules(text, rules.drop_last()), rules.last().pattern, rules.last().with)
    }
}

/// Whether no pattern of the rules stands anywhere in `text`.
pub open spec fn free_of(text: Seq<char>, rules: Seq<Rule>) -> bool {
    forall|k: int| 0 <= k < rules.len() ==> !occurs(text, #[trigger] rules[k].pattern)
}

/// The logging literals that are taken out of component code, in the order
/// in which they are applied.
pub open spec fn logging_rules() -> Seq<Rule> {
    seq![
        Rule { pattern: "includes('stage.textalk.se')"@, with: "includes()"@ },
        Rule { pattern: "console.log('Putting obj into cache by path', pth);"@, with: ""@ },
        Rule {
            pattern: "console.log(\"%c TWAPI CALL \"+e,\"color: #7D4585; font-weight: bold;\",t),"@,
            with: ""@,
        },
        Rule {
            pattern: "console.log(\"%c TWAPI RESULT \"+e,\"color: green; font-weight: bold;\",r.result,t),"@,
            with: ""@,
        },
        Rule {
            pattern: "console.log('%cDEPRECATED: tws-react from1to1x %c import from tws-core instead', 'color: red', 'color: #000');"@,
            with: ""@,
        },
        Rule {
            pattern: "console.log('%cDEPRECATED: tws-react jed %c import from tws-core instead', 'color: red', 'color: #000');"@,
            with: ""@,
        },
    ]
}

/// Component code without the logging literals.
pub open spec fn strip_logging(code: Seq<char>) -> Seq<char> {
    apply_rules(code, logging_rules())
}

/// A text in which the pattern stands nowhere is left as it is.
pub proof fn lemma_replace_without_occurrence(
    text: Seq<char>,
    pattern: Seq<char>,
    with: Seq<char>,
)
    requires
        !occurs(text, pattern),
    ensures
        replace_all(text, pattern, with) == text,
    decreases text.len(),
{
    if pattern.len() == 0 || text.len() < pattern.len() {
    } else {
        assert(text.take(pattern.len() as int) =~= text.subrange(0, 0int + pattern.len()));
        assert(!occurs_at(text, pattern, 0));
        let rest = text.skip(1);
        assert forall|at: int| !occurs_at(rest, pattern, at) by {
            if occurs_at(rest, pattern, at) {
                assert(rest.subrange(at, at + pattern.len()) =~= text.subrange(
                    at + 1,
                    at + 1 + pattern.len(),
                ));
                assert(occurs_at(text, pattern, at + 1));
            }
        }
        lemma_replace_without_occurrence(rest, pattern, with);
        assert(seq![text[0]] + rest =~= text);
    }
}

/// A text in which no pattern of the rules stands is left as it is by all
/// of them.
pub proof fn lemma_rules_without_occurrence(text: Seq<char>, rules: Seq<Rule>)
    requires
        free_of(text, rules),
    ensures
        apply_rules(text, rules) == text,
    decreases rules.len(),
{
    if rules.len() > 0 {
        let front = rules.drop_last();
        assert forall|k: int| 0 <= k < front.len() implies !occurs(
            text,
            #[trigger] front[k].pattern,
        ) by {
            assert(front[k] == rules[k]);
        }
        lemma_rules_without_occurrence(text, front);
        assert(!occurs(text, rules[rules.len() - 1].pattern));
        lemma_replace_without_occurrence(text, rules.last().pattern, rules.last().with);
    }
}

/// Applying the rules a second time changes nothing, where the first pass
/// left no pattern of theirs behind.
pub proof fn lemma_second_pass_changes_nothing(text: Seq<char>, rules: Seq<Rule>)
    requires
        free_of(apply_rules(text, rules), rules),
    ensures
        apply_rules(apply_rules(text, rules), rules) == apply_rules(text, rules),
{
    lemma_rules_without_occurrence(apply_rules(text, rules), rules);
}

/// A replacement that is no longer than its pattern does not lengthen the
/// text, and shortens it where the pattern occurs and is the longer one.
pub proof fn lemma_replace_length(text: Seq<char>, pattern: Seq<char>, with: Seq<char>)
    requires
        with.len() <= pattern.len(),
    ensures
        replace_all(text, pattern, with).len() <= text.len(),
        with.len() < pattern.len() && occurs(text, pattern) ==> replace_all(
            text,
            pattern,
            with,
        ).len() < text.len(),
    decreases text.len(),
{
    if pattern.len() == 0 || text.len() < pattern.len() {
        assert forall|at: int| !(with.len() < pattern.len() && occurs_at(text, pattern, at)) by {}
    } else if text.take(pattern.len() as int) == pattern {
        lemma_replace_length(text.skip(pattern.len() as int), pattern, with);
    } else {
        let rest = text.skip(1);
        lemma_replace_length(rest, pattern, with);
        if occurs(text, pattern) {
            let at = choose|at: int| occurs_at(text, pattern, at);
            assert(text.take(pattern.len() as int) =~= text.subrange(0, 0int + pattern.len()));
            assert(at != 0);
            assert(rest.subrange(at - 1, at - 1 + pattern.len()) =~= text.subrange(
                at,
                at + pattern.len(),
            ));
            assert(occurs_at(rest, pattern, at - 1));
        }
    }
}

/// Whether every rule replaces its pattern by something shorter.
pub open spec fn shortening(rules: Seq<Rule>) -> bool {
    forall|k: int|
        0 <= k < rules.len() ==> (#[trigger] rules[k]).with.len() < rules[k].pattern.len()
}

/// Rules that shorten never lengthen a text, and where they keep its length
/// they found none of their patterns in it.
pub proof fn lemma_rules_length(text: Seq<char>, rules: Seq<Rule>)
    requires
        shortening(rules),
    ensures
        apply_rules(text, rules).len() <= text.len(),
        apply_rules(text, rules).len() == text.len() ==> free_of(text, rules),
    decreases rules.len(),
{
    if rules.len() > 0 {
        let front = rules.drop_last();
        let last = rules.last();
        assert(last == rules[rules.len() - 1]);
        assert forall|k: int| 0 <= k < front.len() implies (#[trigger] front[k]).with.len()
            < front[k].pattern.len() by {
            assert(front[k] == rules[k]);
        }
        lemma_rules_length(text, front);
        let mid = apply_rules(text, front);
        lemma_replace_length(mid, last.pattern, last.with);
        if apply_rules(text, rules).len() == text.len() {
            lemma_rules_without_occurrence(text, front);
            assert(mid == text);
            assert forall|k: int| 0 <= k < rules.len() implies !occurs(
                text,
                #[trigger] rules[k].pattern,
            ) by {
                if k < front.len() {
                    assert(front[k] == rules[k]);
                }
            }
        }
    }
}

/// Every logging rule replaces its literal by something shorter.
pub proof fn lemma_logging_rules_shorten()
    ensures
        shortening(logging_rules()),
        logging_rules().len() == 6,
{
    reveal_strlit("includes('stage.textalk.se')");
    reveal_strlit("includes()");
    reveal_strlit("console.log('Putting obj into cache by path', pth);");
    reveal_strlit("console.log(\"%c TWAPI CALL \"+e,\"color: #7D4585; font-weight: bold;\",t),");
    reveal_strlit(
        "console.log(\"%c TWAPI RESULT \"+e,\"color: green; font-weight: bold;\",r.result,t),",
    );
    reveal_strlit(
        "console.log('%cDEPRECATED: tws-react from1to1x %c import from tws-core instead', 'color: red', 'color: #000');",
    );
    reveal_strlit(
        "console.log('%cDEPRECATED: tws-react jed %c import from tws-core instead', 'color: red', 'color: #000');",
    );
    reveal_strlit("");
}

/// The code that stripping leaves unchanged is the code that holds none of
/// the logging literals.
pub proof fn lemma_strip_logging_fixed_points(code: Seq<char>)
    ensures
        strip_logging(code) == code <==> free_of(code, logging_rules()),
{
    lemma_logging_rules_shorten();
    lemma_rules_length(code, logging_rules());
    if free_of(code, logging_rules()) {
        lemma_rules_without_occurrence(code, logging_rules());
    }
}

/// Stripping twice gives what stripping once gives exactly where the first
/// pass leaves none of the logging literals behind.
pub proof fn lemma_strip_logging_twice(code: Seq<char>)
    ensures
        strip_logging(strip_logging(code)) == strip_logging(code) <==> free_of(
            strip_logging(code),
            logging_rules(),
        ),
{
    lemma_strip_logging_fixed_points(strip_logging(code));
}

/// Whether `pattern` stands in `text` at index `at`.
fn matches_at(text: &Vec<char>, pattern: &Vec<char>, at: usize) -> (found: bool)
    requires
        at + pattern.len() <= text.len(),
    ensures
        found == occurs_at(text@, pattern@, at as int),
{
    let mut k: usize = 0;
    while k < pattern.len()
        invariant
            k <= pattern.len(),
            at + pattern.len() <= text.len(),
            forall|j: int| 0 <= j < k ==> text@[at + j] == pattern@[j],
        decreases pattern.len() - k,
    {
        if text[at + k] != pattern[k] {
            assert(text@.subrange(at as int, at + pattern.len())[k as int] != pattern@[k as int]);
            return false;
        }
        k += 1;
    }
    assert(text@.subrange(at as int, at + pattern.len()) =~= pattern@);
    true
}

/// Replaces every occurrence of `pattern` in `text` by `with`, see
/// [`replace_all`].
pub fn replace_in(text: &Vec<char>, pattern: &Vec<char>, with: &Vec<char>) -> (out: Vec<char>)
    ensures
        out@ == replace_all(text@, pattern@, with@),
{
    let n = text.len();
    let m = pattern.len();
    let mut out: Vec<char> = Vec::new();
    let mut i: usize = 0;
    assert(text@.skip(0) =~= text@);
    while i < n
        invariant
            n == text.len(),
            m == pattern.len(),
            i <= n,
            out@ + replace_all(text@.skip(i as int), pattern@, with@) == replace_all(
                text@,
                pattern@,
                with@,
            ),
        decreases n - i,
    {
        let ghost rest = text@.skip(i as int);
        let ghost before = out@;
        if m > 0 && n - i >= m && matches_at(text, pattern, i) {
            assert(rest.take(m as int) =~= text@.subrange(i as int, i + m));
            let mut k: usize = 0;
            while k < with.len()
                invariant
                    k <= with.len(),
                    out@ == before + with@.take(k as int),
                decreases with.len() - k,
            {
                out.push(with[k]);
                assert(with@.take(k + 1) =~= with@.take(k as int).push(with@[k as int]));
                k += 1;
            }
            assert(with@.take(k as int) =~= with@);
            assert(rest.skip(m as int) =~= text@.skip(i + m));
            assert((before + with@) + replace_all(text@.skip(i + m), pattern@, with@) =~= before
                + (with@ + replace_all(text@.skip(i + m), pattern@, with@)));
            i += m;
        } else {
            if m > 0 && n - i >= m {
                assert(rest.take(m as int) =~= text@.subrange(i as int, i + m));
            }
            out.push(text[i]);
            assert(rest.skip(1) =~= text@.skip(i + 1));
            assert(rest.len() < m ==> seq![rest[0]] + rest.skip(1) =~= rest);
            assert(rest.len() < m && m > 0 ==> replace_all(rest.skip(1), pattern@, with@)
                == rest.skip(1));
            assert(m == 0 ==> seq![rest[0]] + rest.skip(1) =~= rest);
            assert((before + seq![rest[0]]) + replace_all(text@.skip(i + 1), pattern@, with@)
                =~= before + (seq![rest[0]] + replace_all(text@.skip(i + 1), pattern@, with@)));
            i += 1;
        }
    }
    assert(out@ + Seq::<char>::empty() =~= out@);
    out
}

/// Applies a table of replacements to a text, one after the other in the
/// order of the table.
pub fn apply_replacements(text: &String, table: &Vec<Replacement>) -> (out: String)
    ensures
        out@ == apply_rules(text@, rules_of(table@)),
{
    let ghost rules = rules_of(table@);
    let mut chars = to_chars(text.as_str());
    let mut i: usize = 0;
    assert(rules.take(0) =~= Seq::<Rule>::empty());
    while i < table.len()
        invariant
            i <= table.len(),
            rules == rules_of(table@),
            chars@ == apply_rules(text@, rules.take(i as int)),
        decreases table.len() - i,
    {
        let pattern = to_chars(table[i].pattern.as_str());
        let with = to_chars(table[i].with.as_str());
        assert(rules.take(i + 1).drop_last() =~= rules.take(i as int));
        assert(rules.take(i + 1).last() == table@[i as int]@);
        chars = replace_in(&chars, &pattern, &with);
        i += 1;
    }
    assert(rules.take(i as int) =~= rules);
    from_chars(chars.as_slice())
}

/// The table of logging literals, see [`logging_rules`].
pub fn logging_replacements() -> (table: Vec<Replacement>)
    ensures
        rules_of(table@) == logging_rules(),
{
    let mut table: Vec<Replacement> = Vec::new();
    table.push(
        Replacement {
            pattern: String::from_str("includes('stage.textalk.se')"),
            with: String::from_str("includes()"),
        },
    );
    table.push(
        Replacement {
            pattern: String::from_str("console.log('Putting obj into cache by path', pth);"),
            with: String::from_str(""),
        },
    );
    table.push(
        Replacement {
            pattern: String::from_str(
                "console.log(\"%c TWAPI CALL \"+e,\"color: #7D4585; font-weight: bold;\",t),",
            ),
            with: String::from_str(""),
        },
    );
    table.push(
        Replacement {
            pattern: String::from_str(
                "console.log(\"%c TWAPI RESULT \"+e,\"color: green; font-weight: bold;\",r.result,t),",
            ),
            with: String::from_str(""),
        },
    );
    table.push(
        Replacement {
            pattern: String::from_str(
                "console.log('%cDEPRECATED: tws-react from1to1x %c import from tws-core instead', 'color: red', 'color: #000');",
            ),
            with: String::from_str(""),
        },
    );
    table.push(
        Replacement {
            pattern: String::from_str(
                "console.log('%cDEPRECATED: tws-react jed %c import from tws-core instead', 'color: red', 'color: #000');",
            ),
            with: String::from_str(""),
        },
    );
    assert(rules_of(table@) =~= logging_rules());
    table
}

/// Takes the logging literals out of the code of one component.
pub fn remove_logging_code(code: &String) -> (stripped: String)
    ensures
        stripped@ == strip_logging(code@),
{
    let table = logging_replacements();
    apply_replacements(code, &table)
}

} // verus!
