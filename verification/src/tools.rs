//! The tools of the server, and the choice of those that a node exposes.

use vstd::prelude::*;
use vstd::string::*;

use crate::text::{join, same_text, split, trim};

verus! {

/// The names of all tools that there are.
pub open spec fn known_tool_names() -> Seq<Seq<char>> {
    seq!["bash_exec"@, "bash_exec_async"@, "bash_job_status"@]
}

/// The names of all tools that there are. A node can expose some of them,
/// never one that is not here.
pub fn known_tools() -> (names: Vec<String>)
    ensures
        crate::text::texts(names@) == known_tool_names(),
{
    let mut names: Vec<String> = Vec::new();
    names.push("bash_exec".to_owned());
    names.push("bash_exec_async".to_owned());
    names.push("bash_job_status".to_owned());
    assert(crate::text::texts(names@) =~= known_tool_names());
    names
}

/// Whether there is a tool of this name.
pub fn is_known_tool(name: &str) -> (known: bool)
    ensures
        known == known_tool_names().contains(name@),
{
    let known = same_text(name, "bash_exec") || same_text(name, "bash_exec_async") || same_text(
        name,
        "bash_job_status",
    );
    proof {
        let names = known_tool_names();
        assert(names[0] == "bash_exec"@);
        assert(names[1] == "bash_exec_async"@);
        assert(names[2] == "bash_job_status"@);
    }
    known
}

/// A name that no tool has.
#[derive(Debug, PartialEq, Eq)]
pub struct UnknownTool {
    pub name: String,
}

/// What is said of a name that no tool has.
pub open spec fn unknown_tool_message(name: Seq<char>) -> Seq<char> {
    "unknown tool '"@ + name + "' in --tools (known tools: "@ + crate::text::joined(
        known_tool_names(),
        ", "@,
    ) + ")"@
}

impl UnknownTool {
    /// What to tell the user.
    pub fn message(&self) -> (text: String)
        ensures
            text@ == unknown_tool_message(self.name@),
    {
        let mut text = "unknown tool '".to_owned();
        text.append(self.name.as_str());
        text.append("' in --tools (known tools: ");
        text.append(join(known_tools().as_slice(), ", ").as_str());
        text.append(")");
        text
    }
}

/// The names in a comma-separated list, without the white space around them
/// and without empty ones.
pub open spec fn listed_names(raw: Seq<char>) -> Seq<Seq<char>> {
    names_in(crate::text::pieces(raw, ','))
}

pub open spec fn names_in(pieces: Seq<Seq<char>>) -> Seq<Seq<char>> {
    pieces.map_values(|piece: Seq<char>| crate::text::trimmed(piece)).filter(
        |name: Seq<char>| name.len() > 0,
    )
}

/// The first name in a list that no tool has stands at `i`.
pub open spec fn first_unknown_at(names: Seq<Seq<char>>, i: int) -> bool {
    &&& 0 <= i < names.len()
    &&& !known_tool_names().contains(names[i])
    &&& forall|j: int| 0 <= j < i ==> known_tool_names().contains(#[trigger] names[j])
}

/// `name` is the first name in a list that no tool has.
pub open spec fn is_first_unknown(names: Seq<Seq<char>>, name: Seq<char>) -> bool {
    exists|i: int| #[trigger] first_unknown_at(names, i) && names[i] == name
}

/// A text that may be missing.
pub open spec fn opt_view(text: Option<&str>) -> Option<Seq<char>> {
    match text {
        Some(text) => Some(text@),
        None => None,
    }
}

/// The names in the value of `--tools`, none where it has no value.
pub open spec fn exposed(raw: Option<Seq<char>>) -> Seq<Seq<char>> {
    match raw {
        Some(list) => listed_names(list),
        None => Seq::empty(),
    }
}

/// Whether all names are those of tools.
pub open spec fn all_known(names: Seq<Seq<char>>) -> bool {
    forall|i: int| 0 <= i < names.len() ==> known_tool_names().contains(#[trigger] names[i])
}

/// The tools that a node exposes, from the value of `--tools`: no value and an
/// empty one mean none. A name that no tool has is refused, the first one if
/// there are several.
pub fn parse_tools(raw: Option<&str>) -> (result: Result<Vec<String>, UnknownTool>)
    ensures
        match result {
            Ok(tools) => all_known(exposed(opt_view(raw))) && crate::text::texts(tools@)
                == exposed(opt_view(raw)),
            Err(e) => is_first_unknown(exposed(opt_view(raw)), e.name@),
        },
{
    let list = match raw {
        Some(list) => list,
        None => {
            let none: Vec<String> = Vec::new();
            assert(crate::text::texts(none@) =~= Seq::empty());
            return Ok(none);
        },
    };
    let parts = split(list, ',');
    let ghost pieces = crate::text::pieces(list@, ',');
    let mut tools: Vec<String> = Vec::new();
    let mut i: usize = 0;
    assert(crate::text::texts(tools@) =~= names_in(pieces.take(0))) by {
        reveal(Seq::filter);
    }
    while i < parts.len()
        invariant
            i <= parts@.len(),
            raw == Some(list),
            pieces == crate::text::pieces(list@, ','),
            crate::text::texts(parts@) == pieces,
            crate::text::texts(tools@) == names_in(pieces.take(i as int)),
            forall|j: int|
                0 <= j < tools@.len() ==> known_tool_names().contains(#[trigger] tools@[j]@),
        decreases parts@.len() - i,
    {
        let name = trim(parts[i].as_str());
        let ghost before = crate::text::texts(tools@);
        proof {
            lemma_next_name(pieces, i as int);
        }
        if !name.as_str().is_empty() {
            if !is_known_tool(name.as_str()) {
                proof {
                    let names = listed_names(list@);
                    assert(names == names_in(pieces));
                    let k = before.len() as int;
                    lemma_names_start(pieces, i + 1);
                    assert(names_in(pieces.take(i + 1)) == before.push(name@));
                    assert(names[k] == name@);
                    assert forall|j: int| 0 <= j < k implies known_tool_names().contains(
                        #[trigger] names[j],
                    ) by {
                        assert(names[j] == before[j]);
                        assert(before[j] == tools@[j]@);
                    }
                    assert(first_unknown_at(names, k));
                }
                return Err(UnknownTool { name });
            }
            tools.push(name);
            assert(crate::text::texts(tools@) == before.push(name@));
        }
        i = i + 1;
    }
    assert(pieces.take(i as int) == pieces);
    assert forall|j: int| 0 <= j < listed_names(list@).len() implies known_tool_names().contains(
        #[trigger] listed_names(list@)[j],
    ) by {
        assert(listed_names(list@)[j] == tools@[j]@);
    }
    Ok(tools)
}

proof fn lemma_next_name(pieces: Seq<Seq<char>>, i: int)
    requires
        0 <= i < pieces.len(),
    ensures
        names_in(pieces.take(i + 1)) == (if crate::text::trimmed(pieces[i]).len() > 0 {
            names_in(pieces.take(i)).push(crate::text::trimmed(pieces[i]))
        } else {
            names_in(pieces.take(i))
        }),
{
    reveal(Seq::filter);
    let f = |piece: Seq<char>| crate::text::trimmed(piece);
    let longer = pieces.take(i + 1).map_values(f);
    assert(longer.drop_last() == pieces.take(i).map_values(f));
    assert(longer.last() == crate::text::trimmed(pieces[i]));
}

/// The names in the first pieces are the first names.
proof fn lemma_names_start(pieces: Seq<Seq<char>>, i: int)
    requires
        0 <= i <= pieces.len(),
    ensures
        names_in(pieces.take(i)).len() <= names_in(pieces).len(),
        forall|j: int|
            0 <= j < names_in(pieces.take(i)).len() ==> #[trigger] names_in(pieces)[j] == names_in(
                pieces.take(i),
            )[j],
    decreases pieces.len() - i,
{
    if i < pieces.len() {
        lemma_next_name(pieces, i);
        lemma_names_start(pieces, i + 1);
    } else {
        assert(pieces.take(i) == pieces);
    }
}

/// The names of the tools hold no comma and no white space.
proof fn lemma_known_names(name: Seq<char>)
    requires
        known_tool_names().contains(name),
    ensures
        name.len() > 0,
        !name.contains(','),
        crate::text::trimmed(name) == name,
{
    reveal_strlit("bash_exec");
    reveal_strlit("bash_exec_async");
    reveal_strlit("bash_job_status");
    assert("bash_exec"@.len() == 9);
    assert("bash_exec_async"@.len() == 15);
    assert("bash_job_status"@.len() == 15);
    let names = known_tool_names();
    let i = choose|i: int| 0 <= i < names.len() && names[i] == name;
    assert(i == 0 || i == 1 || i == 2);
    assert(name == "bash_exec"@ || name == "bash_exec_async"@ || name == "bash_job_status"@);
    assert(name[0] == 'b');
    assert(name.last() == 'c' || name.last() == 's');
    assert(crate::text::trimmed_start(name) == name);
    assert(crate::text::trimmed_end(name) == name);
    assert forall|k: int| 0 <= k < name.len() implies #[trigger] name[k] != ',' by {
        if name == "bash_exec"@ {
            assert("bash_exec"@[k] != ',');
        } else if name == "bash_exec_async"@ {
            assert("bash_exec_async"@[k] != ',');
        } else {
            assert("bash_job_status"@[k] != ',');
        }
    }
}

/// Any choice of tools can be said: the names of tools, joined by commas, are
/// read back as they were.
pub proof fn law_tools_read_back(names: Seq<Seq<char>>)
    requires
        all_known(names),
    ensures
        exposed(Some(crate::text::joined(names, seq![',']))) == names,
{
    reveal(Seq::filter);
    if names.len() == 0 {
        let none = Seq::<char>::empty();
        let pieces = crate::text::pieces(none, ',');
        assert(pieces == seq![none]);
        assert(pieces.take(1) == pieces);
        lemma_next_name(pieces, 0);
        assert(crate::text::trimmed(none) == none);
        assert(names_in(pieces.take(0)) =~= names);
    } else {
        assert forall|i: int| 0 <= i < names.len() implies !(#[trigger] names[i]).contains(',') by {
            lemma_known_names(names[i]);
        }
        crate::text::law_joined(names, ',');
        lemma_all_names(names, names.len() as int);
        assert(names.take(names.len() as int) == names);
    }
}

proof fn lemma_all_names(names: Seq<Seq<char>>, n: int)
    requires
        all_known(names),
        0 <= n <= names.len(),
    ensures
        names_in(names.take(n)) == names.take(n),
    decreases n,
{
    reveal(Seq::filter);
    if n > 0 {
        lemma_all_names(names, n - 1);
        lemma_next_name(names, n - 1);
        lemma_known_names(names[n - 1]);
        assert(names.take(n) == names.take(n - 1).push(names[n - 1]));
    } else {
        assert(names_in(names.take(0)) =~= names.take(0));
    }
}

/// There are three tools, and no other name is that of one.
pub proof fn law_known_tools(name: Seq<char>)
    ensures
        known_tool_names().contains(name) <==> (name == "bash_exec"@ || name == "bash_exec_async"@
            || name == "bash_job_status"@),
{
    let names = known_tool_names();
    assert(names[0] == "bash_exec"@);
    assert(names[1] == "bash_exec_async"@);
    assert(names[2] == "bash_job_status"@);
    if names.contains(name) {
        let i = choose|i: int| 0 <= i < names.len() && names[i] == name;
        assert(i == 0 || i == 1 || i == 2);
    }
}

proof fn lemma_names_append(a: Seq<Seq<char>>, b: Seq<Seq<char>>)
    ensures
        names_in(a + b) == names_in(a) + names_in(b),
    decreases b.len(),
{
    if b.len() == 0 {
        assert(a + b =~= a);
        assert(names_in(b) =~= Seq::empty()) by {
            reveal(Seq::filter);
        }
        assert(names_in(a) + names_in(b) =~= names_in(a));
    } else {
        let n = b.len() - 1;
        let all = a + b;
        lemma_names_append(a, b.drop_last());
        assert(all.take(a.len() + n) =~= a + b.drop_last());
        assert(all.take(a.len() + n + 1) =~= all);
        assert(b.take(n) =~= b.drop_last());
        assert(b.take(n + 1) =~= b);
        lemma_next_name(all, a.len() + n);
        lemma_next_name(b, n);
        assert(names_in(all) =~= names_in(a) + names_in(b));
    }
}

/// A list names what stands before a comma, and then what stands behind it.
/// What has no comma in it names one tool, without the white space around it,
/// and none where there is nothing but white space.
pub proof fn law_list(a: Seq<char>, b: Seq<char>)
    ensures
        exposed(Some(a.push(',') + b)) == exposed(Some(a)) + exposed(Some(b)),
        !a.contains(',') && crate::text::trimmed(a).len() > 0 ==> exposed(Some(a)) == seq![
            crate::text::trimmed(a),
        ],
        !a.contains(',') && crate::text::trimmed(a).len() == 0 ==> exposed(Some(a)).len() == 0,
        exposed(None).len() == 0,
{
    crate::text::law_cut_at_separator(a, b, ',');
    lemma_names_append(crate::text::pieces(a, ','), crate::text::pieces(b, ','));
    if !a.contains(',') {
        let pieces = seq![a];
        lemma_next_name(pieces, 0);
        assert(pieces.take(1) =~= pieces);
        assert(names_in(pieces.take(0)) =~= Seq::empty()) by {
            reveal(Seq::filter);
        }
        assert(exposed(Some(a)) == names_in(pieces));
        if crate::text::trimmed(a).len() > 0 {
            assert(exposed(Some(a)) =~= seq![crate::text::trimmed(a)]);
        }
    }
}

/// A list with a name that no tool has is refused, and the name that is told is
/// the first such one; a list of tools' names is not refused.
pub proof fn law_first_unknown(names: Seq<Seq<char>>, i: int, name: Seq<char>)
    requires
        0 <= i < names.len(),
        names[i] != "bash_exec"@ && names[i] != "bash_exec_async"@ && names[i]
            != "bash_job_status"@,
        forall|j: int|
            0 <= j < i ==> #[trigger] names[j] == "bash_exec"@ || names[j] == "bash_exec_async"@
                || names[j] == "bash_job_status"@,
    ensures
        !all_known(names),
        is_first_unknown(names, name) <==> name == names[i],
        all_known(names.take(i)),
        !is_first_unknown(names.take(i), name),
{
    law_known_tools(names[i]);
    assert forall|j: int| 0 <= j < i implies known_tool_names().contains(#[trigger] names[j]) by {
        law_known_tools(names[j]);
    }
    assert(first_unknown_at(names, i));
    if is_first_unknown(names, name) {
        let k = choose|k: int| #[trigger] first_unknown_at(names, k) && names[k] == name;
        assert(!(k < i));
        assert(!(i < k));
    }
    assert forall|j: int| 0 <= j < i implies known_tool_names().contains(
        #[trigger] names.take(i)[j],
    ) by {
        assert(names.take(i)[j] == names[j]);
    }
}

/// The user is told the name that no tool has, as it was given, and the names of
/// all tools.
pub proof fn law_unknown_tool_message(name: Seq<char>)
    ensures
        unknown_tool_message(name) == "unknown tool '"@ + name
            + "' in --tools (known tools: bash_exec, bash_exec_async, bash_job_status)"@,
{
    lemma_known_list();
    reveal_strlit("' in --tools (known tools: ");
    reveal_strlit(")");
    reveal_strlit("bash_exec, bash_exec_async, bash_job_status");
    reveal_strlit("' in --tools (known tools: bash_exec, bash_exec_async, bash_job_status)");
    assert("' in --tools (known tools: "@ + "bash_exec, bash_exec_async, bash_job_status"@ + ")"@
        =~= "' in --tools (known tools: bash_exec, bash_exec_async, bash_job_status)"@);
    assert(unknown_tool_message(name) =~= "unknown tool '"@ + name + ("' in --tools (known tools: "@
        + "bash_exec, bash_exec_async, bash_job_status"@ + ")"@));
}

/// The names of all tools, one after the other.
pub(crate) proof fn lemma_known_list()
    ensures
        crate::text::joined(known_tool_names(), ", "@)
            == "bash_exec, bash_exec_async, bash_job_status"@,
{
    let names = known_tool_names();
    reveal_strlit("bash_exec, bash_exec_async, bash_job_status");
    reveal_strlit("bash_exec");
    reveal_strlit("bash_exec_async");
    reveal_strlit("bash_job_status");
    reveal_strlit(", ");
    reveal_with_fuel(crate::text::joined, 3);
    assert(names.drop_last() =~= seq!["bash_exec"@, "bash_exec_async"@]);
    assert(names.drop_last().drop_last() =~= seq!["bash_exec"@]);
    assert(crate::text::joined(names, ", "@) =~= "bash_exec, bash_exec_async, bash_job_status"@);
}

/// A text that is there counts, empty or not.
pub proof fn law_opt_view(text: &str)
    ensures
        opt_view(Some(text)) == Some(text@),
        opt_view(None) is None,
{
}

} // verus!
