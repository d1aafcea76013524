//! Extra commands: line counts of a repository and the Steam status check.
use vstd::prelude::*;
use crate::embed::{respond, say, Reply, ReplyView};
use crate::text::{decimal, join, joined, owned, push_decimal, push_str, views};

verus! {

/// The line counts of one language in a repository.
pub struct Language {
    pub name: String,
    pub files: u64,
    pub lines: u64,
    pub code: u64,
    pub comments: u64,
    pub blanks: u64,
}

pub open spec fn language_line(l: Language) -> Seq<char> {
    "**"@ + l.name@ + "**: "@ + decimal(l.files as nat) + " files, "@ + decimal(l.lines as nat) + " total lines, "@
        + decimal(l.code as nat) + " code lines, "@ + decimal(l.comments as nat) + " comments, "@ + decimal(
        l.blanks as nat,
    ) + " blank lines"@
}

pub open spec fn total_line(l: Language) -> Seq<char> {
    "**"@ + l.name@ + "**: "@ + decimal(l.files as nat) + " files, "@ + decimal(l.lines as nat) + " lines, "@
        + decimal(l.code as nat) + " code lines, "@ + decimal(l.comments as nat) + " comments, "@ + decimal(
        l.blanks as nat,
    ) + " blank lines"@
}

pub open spec fn language_lines(ls: Seq<Language>) -> Seq<Seq<char>> {
    ls.map_values(|l: Language| language_line(l))
}

/// The report: a heading, a line per language, then the totals.
pub open spec fn sloc_text(owner: Seq<char>, name: Seq<char>, ls: Seq<Language>, total: Language) -> Seq<char> {
    "**Code statistics for repository `"@ + owner + "/"@ + name + "`**:\n\n"@ + joined(language_lines(ls), "\n"@)
        + "\n\n"@ + total_line(total)
}

fn push_counts(s: &mut String, l: &Language, lines_word: &str)
    ensures
        final(s)@ == old(s)@ + "**"@ + l.name@ + "**: "@ + decimal(l.files as nat) + " files, "@ + decimal(l.lines as nat)
            + lines_word@ + decimal(l.code as nat) + " code lines, "@ + decimal(l.comments as nat) + " comments, "@
            + decimal(l.blanks as nat) + " blank lines"@,
{
    push_str(s, "**");
    push_str(s, l.name.as_str());
    push_str(s, "**: ");
    push_decimal(s, l.files);
    push_str(s, " files, ");
    push_decimal(s, l.lines);
    push_str(s, lines_word);
    push_decimal(s, l.code);
    push_str(s, " code lines, ");
    push_decimal(s, l.comments);
    push_str(s, " comments, ");
    push_decimal(s, l.blanks);
    push_str(s, " blank lines");
}

/// The line-count report of a repository.
pub fn sloc_report(owner: &str, name: &str, languages: &Vec<Language>, total: &Language) -> (s: String)
    ensures
        s@ == sloc_text(owner@, name@, languages@, *total),
{
    let mut lines: Vec<String> = Vec::new();
    let mut i: usize = 0;
    while i < languages.len()
        invariant
            i <= languages@.len(),
            views(lines@) == language_lines(languages@.take(i as int)),
        decreases languages@.len() - i,
    {
        let mut line = String::new();
        push_counts(&mut line, &languages[i], " total lines, ");
        let ghost before = lines@;
        lines.push(line);
        assert(views(lines@) =~= views(before).push(language_line(languages@[i as int])));
        assert(language_lines(languages@.take(i + 1)) =~= language_lines(languages@.take(i as int)).push(
            language_line(languages@[i as int]),
        ));
        i = i + 1;
    }
    assert(languages@.take(languages@.len() as int) =~= languages@);
    let mut s = owned("**Code statistics for repository `");
    push_str(&mut s, owner);
    push_str(&mut s, "/");
    push_str(&mut s, name);
    push_str(&mut s, "`**:\n\n");
    let body = join(&lines, "\n");
    push_str(&mut s, body.as_str());
    push_str(&mut s, "\n\n");
    push_counts(&mut s, total, " lines, ");
    assert(s@ =~= sloc_text(owner@, name@, languages@, *total));
    s
}

/// The message shown while the counts are fetched.
pub fn sloc_waiting(owner: &str, name: &str) -> (r: Reply)
    ensures
        r@ == ReplyView::Say("Getting statistics for `"@ + owner@ + "/"@ + name@ + "`, please wait..."@),
{
    let mut s = owned("Getting statistics for `");
    push_str(&mut s, owner);
    push_str(&mut s, "/");
    push_str(&mut s, name);
    push_str(&mut s, "`, please wait...");
    say(s)
}

/// The address the counts come from.
pub fn sloc_url(owner: &str, name: &str) -> (s: String)
    ensures
        s@ == "https://tokei.vercel.app/"@ + owner@ + "/"@ + name@,
{
    let mut s = owned("https://tokei.vercel.app/");
    push_str(&mut s, owner);
    push_str(&mut s, "/");
    push_str(&mut s, name);
    s
}

/// The answer to `sloc` without arguments.
pub fn sloc_no_arguments() -> (r: Reply)
    ensures
        r@ == ReplyView::Say("No repository details provided. Please provide them & try again."@),
{
    say(owned("No repository details provided. Please provide them & try again."))
}

/// What the Steam status check answers for an HTTP status: only an
/// internal server error is answered.
pub fn steam_status_reply(code: u16) -> (r: Option<Reply>)
    ensures
        r is Some <==> code == 500,
        r matches Some(reply) ==> reply@ == ReplyView::Respond(
            "steamstat.us is currently offline; cannot retrieve Steam status."@,
        ),
{
    if code == 500 {
        Some(respond(owned("steamstat.us is currently offline; cannot retrieve Steam status.")))
    } else {
        None
    }
}

} // verus!
