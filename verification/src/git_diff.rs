//! The combined diff view of a worktree: uncommitted changes and the commits
//! against the main branch, framed for display.
use vstd::prelude::*;
use vstd::string::*;
use crate::text::{trim_text, trim_ws};

verus! {

/// Whether a diff was produced and holds more than whitespace.
pub open spec fn has_changes(diff: Option<Seq<char>>) -> bool {
    diff matches Some(d) && trim_ws(d).len() > 0
}

/// The framed uncommitted-changes section, if there are changes.
pub open spec fn uncommitted_section(diff: Option<Seq<char>>) -> Seq<char> {
    if has_changes(diff) {
        "╭─ Uncommitted Changes ─╮\n"@ + diff->0 + "\n"@
    } else {
        Seq::empty()
    }
}

/// The framed commits-against-main section, if there are changes; it closes
/// the uncommitted section first when that one is shown.
pub open spec fn main_section(first: Seq<char>, diff: Option<Seq<char>>, main_branch: Seq<char>) -> Seq<char> {
    if has_changes(diff) {
        (if first.len() > 0 { "╰───────────────────────╯\n\n"@ } else { Seq::empty() }) + "╭─ Commits vs "@
            + main_branch + " ─╮\n"@ + diff->0 + "\n╰───────────────────────╯\n"@
    } else {
        Seq::empty()
    }
}

/// The combined diff text: the sections that have changes, or a notice that
/// there are none.
pub open spec fn combined_diff(uncommitted: Option<Seq<char>>, against_main: Option<Seq<char>>, main_branch: Seq<char>) -> Seq<char> {
    let first = uncommitted_section(uncommitted);
    let all = first + main_section(first, against_main, main_branch);
    if all.len() == 0 {
        "No changes to display"@
    } else {
        all
    }
}

/// The commits-against-main section for a diff `d` against `main_branch`.
pub open spec fn commits_frame(d: Seq<char>, main_branch: Seq<char>) -> Seq<char> {
    "╭─ Commits vs "@ + main_branch + " ─╮\n"@ + d + "\n╰───────────────────────╯\n"@
}

/// What the combined view is made of: where the uncommitted diff `u` holds
/// more than whitespace, the view starts with it under its header; where
/// the diff against main `m` does, the view ends with it framed as the
/// commits against main, whatever `u` is, and is exactly that frame where
/// `u` is blank or missing; the notice that there are no changes comes
/// exactly when both are blank or missing.
pub proof fn lemma_combined_diff_sections(u: Option<Seq<char>>, m: Option<Seq<char>>, main_branch: Seq<char>)
    ensures
        ({
            let r = combined_diff(u, m, main_branch);
            &&& has_changes(u) ==> r.take(("╭─ Uncommitted Changes ─╮\n"@ + u->0 + "\n"@).len() as int)
                == "╭─ Uncommitted Changes ─╮\n"@ + u->0 + "\n"@
            &&& has_changes(m) ==> r.len() >= commits_frame(m->0, main_branch).len()
                && r.skip(r.len() - commits_frame(m->0, main_branch).len()) == commits_frame(m->0, main_branch)
            &&& has_changes(m) && !has_changes(u) ==> r == commits_frame(m->0, main_branch)
            &&& has_changes(u) && has_changes(m) ==> r == "╭─ Uncommitted Changes ─╮\n"@ + u->0 + "\n"@
                + "╰───────────────────────╯\n\n"@ + commits_frame(m->0, main_branch)
            &&& has_changes(u) && !has_changes(m) ==> r == "╭─ Uncommitted Changes ─╮\n"@ + u->0 + "\n"@
            &&& (r == "No changes to display"@) == (!has_changes(u) && !has_changes(m))
        }),
{
    reveal_strlit("No changes to display");
    reveal_strlit("╭─ Uncommitted Changes ─╮\n");
    reveal_strlit("╭─ Commits vs ");
    let first = uncommitted_section(u);
    let sec = main_section(first, m, main_branch);
    let all = first + sec;
    let r = combined_diff(u, m, main_branch);
    if has_changes(u) {
        let head = "╭─ Uncommitted Changes ─╮\n"@ + u->0 + "\n"@;
        assert(first == head);
        assert(all.len() > 0);
        assert(all.take(head.len() as int) =~= head);
        assert(r[0] == '╭');
    }
    if has_changes(m) {
        let f = commits_frame(m->0, main_branch);
        let closing: Seq<char> = if first.len() > 0 { "╰───────────────────────╯\n\n"@ } else { Seq::empty() };
        assert(sec =~= closing + f);
        assert(all.len() > 0) by {
            assert(f[0] == '╭');
        }
        assert(all.skip(all.len() - f.len()) =~= f);
        if !has_changes(u) {
            assert(first.len() == 0);
            assert(all =~= f);
        } else {
            assert(first.len() > 0);
            assert(all =~= first + "╰───────────────────────╯\n\n"@ + f);
        }
        assert(r[r.len() - f.len()] == '╭');
        if first.len() == 0 {
            assert(r[0] == '╭');
        }
    }
    if !has_changes(u) && !has_changes(m) {
        assert(all.len() == 0);
    }
    if has_changes(u) && !has_changes(m) {
        assert(all =~= first);
    }
    if has_changes(u) || has_changes(m) {
        assert(r == all);
        assert(r[0] == '╭') by {
            if has_changes(u) {
                assert(all[0] == first[0]);
            } else {
                assert(all[0] == sec[0]);
            }
        }
        assert("No changes to display"@[0] == 'N');
    }
}

fn has_content(diff: &Option<String>) -> (r: bool)
    ensures
        r == has_changes(crate::agent::opt_text(*diff)),
{
    match diff {
        Some(d) => trim_text(d.as_str()).as_str().unicode_len() > 0,
        None => false,
    }
}

/// Frames the uncommitted diff and the diff against the main branch (each
/// `None` when it could not be produced) into one text for display.
pub fn combine_git_diffs(uncommitted: Option<String>, against_main: Option<String>, main_branch: &str) -> (r: String)
    ensures
        r@ == combined_diff(crate::agent::opt_text(uncommitted), crate::agent::opt_text(against_main), main_branch@),
        has_changes(crate::agent::opt_text(against_main)) ==> ({
            let f = commits_frame(against_main->0@, main_branch@);
            r@.len() >= f.len() && r@.skip(r@.len() - f.len()) == f
        }),
        has_changes(crate::agent::opt_text(against_main)) && !has_changes(crate::agent::opt_text(uncommitted))
            ==> r@ == commits_frame(against_main->0@, main_branch@),
        has_changes(crate::agent::opt_text(uncommitted)) ==> ({
            let head = "╭─ Uncommitted Changes ─╮\n"@ + uncommitted->0@ + "\n"@;
            r@.take(head.len() as int) == head
        }),
        has_changes(crate::agent::opt_text(uncommitted)) && has_changes(crate::agent::opt_text(against_main))
            ==> r@ == "╭─ Uncommitted Changes ─╮\n"@ + uncommitted->0@ + "\n"@ + "╰───────────────────────╯\n\n"@
                + commits_frame(against_main->0@, main_branch@),
        has_changes(crate::agent::opt_text(uncommitted)) && !has_changes(crate::agent::opt_text(against_main))
            ==> r@ == "╭─ Uncommitted Changes ─╮\n"@ + uncommitted->0@ + "\n"@,
        (r@ == "No changes to display"@) == (!has_changes(crate::agent::opt_text(uncommitted))
            && !has_changes(crate::agent::opt_text(against_main))),
{
    proof {
        lemma_combined_diff_sections(crate::agent::opt_text(uncommitted), crate::agent::opt_text(against_main), main_branch@);
    }
    let mut result = String::new();
    if has_content(&uncommitted) {
        if let Some(d) = &uncommitted {
            result.append("╭─ Uncommitted Changes ─╮\n");
            result.append(d.as_str());
            result.append("\n");
        }
    }
    let ghost first = result@;
    assert(first =~= uncommitted_section(crate::agent::opt_text(uncommitted)));
    if has_content(&against_main) {
        if let Some(d) = &against_main {
            if result.as_str().unicode_len() > 0 {
                result.append("╰───────────────────────╯\n\n");
            }
            result.append("╭─ Commits vs ");
            result.append(main_branch);
            result.append(" ─╮\n");
            result.append(d.as_str());
            result.append("\n╰───────────────────────╯\n");
        }
    }
    assert(result@ =~= first + main_section(first, crate::agent::opt_text(against_main), main_branch@));
    if result.as_str().unicode_len() == 0 {
        String::from_str("No changes to display")
    } else {
        result
    }
}

} // verus!
