//! What a block reads as, once it is text somebody is going to paste.
//!
//! Two shapes, and the difference between them is where it is going. A fenced
//! block goes in a message: it is the command and what it printed, and nothing
//! anybody has to read past. A report goes in an issue: it says what was run,
//! how it ended, where, and on which branch.
//!
//! Nothing here talks to the host. Each function is stated against a
//! definition of the text it builds, character for character.
use vstd::prelude::*;

use crate::block::{BlockFacts, Place};
use crate::text::{
    backticks, blank, decimal, digit, digits, is_blank, is_space, lemma_trim_end_drops_space,
    lemma_trim_end_empty, lemma_trim_end_is_prefix, trim, trim_end, trimmed, trimmed_end,
};

verus! {

/// The language a console fence is tagged with.
///
/// `console` rather than `sh` or `bash`, because what is in it is not a script:
/// it is a prompt, a command and its output.
pub const FENCE_LANGUAGE: &'static str = "console";

/// Which of the two shapes an entry asks for.
#[derive(Copy, Clone, Debug, PartialEq, Eq, Structural)]
pub enum Shape {
    /// The command and its output in one fence.
    Fenced,
    /// The same, with a heading and the facts around it.
    Report,
}

/// The characters of an optional string slice.
pub open spec fn chars_of(text: Option<&str>) -> Option<Seq<char>> {
    match text {
        Some(text) => Some(text@),
        None => None,
    }
}

/// The command line the plugin was told, trimmed, when it was told one that
/// is not all whitespace.
pub open spec fn command_of(block: Option<&BlockFacts>) -> Option<Seq<char>> {
    match block {
        Some(block) => match block.ran {
            Some(ran) => match ran.command {
                Some(command) => if trim(command@).len() > 0 {
                    Some(trim(command@))
                } else {
                    None
                },
                None => None,
            },
            None => None,
        },
        None => None,
    }
}

/// How many backticks `s` ends with.
pub open spec fn trailing_run(s: Seq<char>) -> nat
    decreases s.len(),
{
    if s.len() > 0 && s.last() == '`' {
        trailing_run(s.drop_last()) + 1
    } else {
        0
    }
}

/// The longest run of backticks anywhere in `s`.
pub open spec fn longest_run(s: Seq<char>) -> nat
    decreases s.len(),
{
    if s.len() == 0 {
        0
    } else {
        let before = longest_run(s.drop_last());
        let here = trailing_run(s);
        if before < here {
            here
        } else {
            before
        }
    }
}

/// How many backticks the fence around `command` and `output` has: one more
/// than the longest run in either, and never fewer than three.
pub open spec fn fence_length(command: Option<Seq<char>>, output: Seq<char>) -> nat {
    let in_command = match command {
        Some(command) => longest_run(command),
        None => 0,
    };
    let in_output = longest_run(output);
    let longest = if in_command < in_output {
        in_output
    } else {
        in_command
    };
    (if longest < 2 {
        2
    } else {
        longest
    }) + 1
}

/// The command and its output in one `console` fence: the prompt and the
/// command when there is one, then the output without its trailing whitespace
/// when it is not all whitespace.
pub open spec fn fenced_text(command: Option<Seq<char>>, output: Seq<char>) -> Seq<char> {
    let fence = backticks(fence_length(command, output));
    fence + FENCE_LANGUAGE@ + "\n"@ + match command {
        Some(command) => "$ "@ + command + "\n"@,
        None => Seq::empty(),
    } + if is_blank(output) {
        Seq::empty()
    } else {
        trim_end(output) + "\n"@
    } + fence + "\n"@
}

/// How the command ended, in words: nothing when the shell never said.
pub open spec fn status_words(exit: Option<i32>) -> Seq<char> {
    match exit {
        Some(status) => if status == 0 {
            "Succeeded"@
        } else {
            "Exited "@ + decimal(status as int)
        },
        None => Seq::empty(),
    }
}

/// Where it ran, in words, continuing whatever `status` already said.
pub open spec fn place_words(status: Seq<char>, place: Option<Place>) -> Seq<char> {
    match place {
        Some(place) => (if status.len() == 0 {
            "Ran in `"@
        } else {
            " in `"@
        }) + place.directory@ + "`"@ + match place.branch {
            Some(branch) => " on `"@ + branch@ + "`"@,
            None => Seq::empty(),
        },
        None => Seq::empty(),
    }
}

/// The status the plugin was told, if it was told one.
pub open spec fn exit_of(block: Option<&BlockFacts>) -> Option<i32> {
    match block {
        Some(block) => match block.ran {
            Some(ran) => ran.exit,
            None => None,
        },
        None => None,
    }
}

/// Where the plugin was told it ran, if it was told.
pub open spec fn place_of(block: Option<&BlockFacts>) -> Option<Place> {
    match block {
        Some(block) => block.place,
        None => None,
    }
}

/// The one sentence a report says about how and where the command ran, or
/// nothing when nothing was known.
pub open spec fn sentence(block: Option<&BlockFacts>) -> Seq<char> {
    let status = status_words(exit_of(block));
    let said = status + place_words(status, place_of(block));
    if said.len() == 0 {
        Seq::empty()
    } else {
        said + ".\n\n"@
    }
}

/// The heading a report puts over a command it was told.
pub open spec fn heading(command: Option<Seq<char>>) -> Seq<char> {
    match command {
        Some(command) => "### `"@ + command + "`\n\n"@,
        None => Seq::empty(),
    }
}

/// A report: the heading, the sentence, and the fence.
pub open spec fn report_text(block: Option<&BlockFacts>, output: Seq<char>) -> Seq<char> {
    heading(command_of(block)) + sentence(block) + fenced_text(command_of(block), output)
}

/// What a block reads as in `shape`: nothing at all for a block with neither a
/// command nor any output, and otherwise the fence or the report.
pub open spec fn markdown_text(block: Option<&BlockFacts>, output: Seq<char>, shape: Shape) -> Seq<
    char,
> {
    if command_of(block) is None && is_blank(output) {
        Seq::empty()
    } else {
        match shape {
            Shape::Fenced => fenced_text(command_of(block), output),
            Shape::Report => report_text(block, output),
        }
    }
}

/// One command and what it printed, as Markdown.
///
/// `block` is what the plugin was told about the command, `None` when it was
/// told nothing, and `output` is what came back when it asked what it printed.
/// A block with neither a command nor any output is nothing to copy, and comes
/// out empty.
pub fn markdown(block: Option<&BlockFacts>, output: &str, shape: Shape) -> (text: String)
    ensures
        text@ == markdown_text(block, output@, shape),
        text@.len() == 0 <==> (command_of(block) is None && is_blank(output@)),
{
    proof {
        lemma_fenced_not_empty(command_of(block), output@);
    }
    if command(block).is_none() && blank(output) {
        return String::new();
    }
    match shape {
        Shape::Fenced => fenced(block, output),
        Shape::Report => report(block, output),
    }
}

/// The command line, trimmed, when the plugin was told one.
pub fn command(block: Option<&BlockFacts>) -> (command: Option<&str>)
    ensures
        chars_of(command) == command_of(block),
{
    match block {
        None => None,
        Some(block) => match &block.ran {
            None => None,
            Some(ran) => match &ran.command {
                None => None,
                Some(command) => {
                    let command = trimmed(command.as_str());
                    if command.is_empty() {
                        None
                    } else {
                        Some(command)
                    }
                },
            },
        },
    }
}

/// The command and its output, in one console fence.
pub fn fenced(block: Option<&BlockFacts>, output: &str) -> (text: String)
    ensures
        text@ == fenced_text(command_of(block), output@),
{
    let command = command(block);
    let fence = fence_for(command, output);
    let mut text = String::new();
    text.append(fence.as_str());
    text.append(FENCE_LANGUAGE);
    text.append("\n");
    let ghost opened = text@;
    if let Some(command) = command {
        // With the prompt, because a `console` fence without one is a fence
        // where the command and the first line of output look the same.
        text.append("$ ");
        text.append(command);
        text.append("\n");
    }
    let ghost prompted = text@;
    let kept = trimmed_end(output);
    proof {
        lemma_trim_end_empty(output@);
    }
    if !blank(kept) {
        text.append(kept);
        text.append("\n");
    }
    let ghost printed = text@;
    text.append(fence.as_str());
    text.append("\n");
    proof {
        let c = command_of(block);
        let prompt = match c {
            Some(c) => "$ "@ + c + "\n"@,
            None => Seq::<char>::empty(),
        };
        let body = if is_blank(output@) {
            Seq::<char>::empty()
        } else {
            trim_end(output@) + "\n"@
        };
        assert(prompted =~= opened + prompt);
        assert(printed =~= opened + prompt + body);
    }
    text
}

/// The same, with what somebody reading a bug report asks for around it.
pub fn report(block: Option<&BlockFacts>, output: &str) -> (text: String)
    ensures
        text@ == report_text(block, output@),
{
    let mut text = String::new();
    if let Some(command) = command(block) {
        text.append("### `");
        text.append(command);
        text.append("`\n\n");
    }
    let ghost headed = text@;
    proof {
        assert(headed =~= heading(command_of(block)));
    }
    // One sentence, made of whatever was known. What the shell never said
    // contributes nothing rather than a word for it.
    let mut said = String::new();
    let exit = match block {
        Some(block) => match &block.ran {
            Some(ran) => ran.exit,
            None => None,
        },
        None => None,
    };
    match exit {
        Some(status) => {
            if status == 0 {
                said.append("Succeeded");
            } else {
                said.append("Exited ");
                push_decimal(&mut said, status);
            }
        },
        None => {},
    }
    let ghost status = said@;
    proof {
        assert(status =~= status_words(exit_of(block)));
    }
    let place = match block {
        Some(block) => match &block.place {
            Some(place) => Some(place),
            None => None,
        },
        None => None,
    };
    if let Some(place) = place {
        if said.as_str().is_empty() {
            said.append("Ran in `");
        } else {
            said.append(" in `");
        }
        said.append(place.directory.as_str());
        said.append("`");
        if let Some(branch) = &place.branch {
            said.append(" on `");
            said.append(branch.as_str());
            said.append("`");
        }
    }
    proof {
        let p = place_of(block);
        assert(said@ =~= status + place_words(status, p));
    }
    if !said.as_str().is_empty() {
        text.append(said.as_str());
        text.append(".\n\n");
    }
    let ghost told = text@;
    proof {
        assert(told =~= headed + sentence(block));
    }
    let fence = fenced(block, output);
    text.append(fence.as_str());
    text
}

/// The fence to use, which is longer than the longest run of backticks in what
/// it has to hold.
///
/// Three is the ordinary answer. Anything else is output that itself contains
/// a fence, and a three-backtick fence around it would end in the middle of
/// somebody's document.
pub fn fence_for(command: Option<&str>, output: &str) -> (fence: String)
    ensures
        fence@ == backticks(fence_length(chars_of(command), output@)),
{
    let in_command = match command {
        Some(command) => longest_backtick_run(command),
        None => 0,
    };
    let in_output = longest_backtick_run(output);
    let longest = if in_command < in_output {
        in_output
    } else {
        in_command
    };
    let longest = if longest < 2 {
        2
    } else {
        longest
    };
    let mut fence = String::new();
    let mut made: usize = 0;
    proof {
        reveal_strlit("`");
    }
    while made < longest
        invariant
            made <= longest,
            fence@ =~= backticks(made as nat),
            "`"@ =~= seq!['`'],
        decreases longest - made,
    {
        fence.append("`");
        made = made + 1;
    }
    // One more than the longest run it holds.
    fence.append("`");
    fence
}

/// The longest run of backticks in `text`.
pub fn longest_backtick_run(text: &str) -> (longest: usize)
    ensures
        longest == longest_run(text@),
        longest <= text@.len(),
{
    crate::text::char_count_fits(text);
    let mut longest: usize = 0;
    let mut run: usize = 0;
    for character in it: text.chars()
        invariant
            it.seq() == text@,
            text@.len() <= usize::MAX,
            run == trailing_run(text@.take(it.index() as int)),
            longest == longest_run(text@.take(it.index() as int)),
            run <= it.index(),
            longest <= it.index(),
    {
        proof {
            let i = it.index() as int;
            assert(text@.take(i + 1).drop_last() =~= text@.take(i));
            assert(text@.take(i + 1).last() == text@[i]);
        }
        if character == '`' {
            run = run + 1;
            if longest < run {
                longest = run;
            }
        } else {
            run = 0;
        }
    }
    proof {
        assert(text@.take(text@.len() as int) =~= text@);
    }
    longest
}

/// Appends `n` as `i32::to_string` writes it.
fn push_decimal(text: &mut String, n: i32)
    ensures
        final(text)@ == old(text)@ + decimal(n as int),
{
    let magnitude: u32 = if n < 0 {
        proof {
            reveal_strlit("-");
        }
        text.append("-");
        (0i64 - (n as i64)) as u32
    } else {
        n as u32
    };
    push_digits(text, magnitude);
}

/// Appends the decimal digits of `n`.
fn push_digits(text: &mut String, n: u32)
    ensures
        final(text)@ == old(text)@ + digits(n as nat),
    decreases n,
{
    let ghost before = text@;
    if n >= 10 {
        push_digits(text, n / 10);
    }
    text.append(digit_text(n % 10));
    proof {
        if n >= 10 {
            assert(text@ =~= before + digits(n as nat));
        } else {
            assert(n % 10 == n);
            assert(text@ =~= before + digits(n as nat));
        }
    }
}

/// One decimal digit, as text.
fn digit_text(d: u32) -> (text: &'static str)
    requires
        d < 10,
    ensures
        text@ == seq![digit(d as nat)],
{
    proof {
        reveal_strlit("0");
        reveal_strlit("1");
        reveal_strlit("2");
        reveal_strlit("3");
        reveal_strlit("4");
        reveal_strlit("5");
        reveal_strlit("6");
        reveal_strlit("7");
        reveal_strlit("8");
        reveal_strlit("9");
    }
    match d {
        0 => "0",
        1 => "1",
        2 => "2",
        3 => "3",
        4 => "4",
        5 => "5",
        6 => "6",
        7 => "7",
        8 => "8",
        _ => "9",
    }
}

/// A fence always has at least three backticks, so a fenced block is never
/// empty.
pub proof fn lemma_fenced_not_empty(command: Option<Seq<char>>, output: Seq<char>)
    ensures
        fence_length(command, output) >= 3,
        fenced_text(command, output).len() >= 3,
{
}

/// A run of `n` backticks at the end of `s` is counted by [`trailing_run`].
proof fn lemma_trailing_run_at_least(s: Seq<char>, n: nat)
    requires
        n <= s.len(),
        forall|k: int| s.len() - n <= k < s.len() ==> #[trigger] s[k] == '`',
    ensures
        trailing_run(s) >= n,
    decreases n,
{
    if n > 0 {
        assert(s.last() == '`');
        let rest = s.drop_last();
        assert forall|k: int| rest.len() - (n - 1) <= k < rest.len() implies #[trigger] rest[k]
            == '`' by {
            assert(rest[k] == s[k]);
        }
        lemma_trailing_run_at_least(rest, (n - 1) as nat);
    }
}

/// The longest run in `s` is at least as long as any run in a prefix of it.
proof fn lemma_longest_run_of_prefix(s: Seq<char>, k: int)
    requires
        0 <= k <= s.len(),
    ensures
        longest_run(s) >= longest_run(s.take(k)),
        longest_run(s) >= trailing_run(s.take(k)),
    decreases s.len(),
{
    if k == s.len() {
        assert(s.take(k) =~= s);
    } else {
        lemma_longest_run_of_prefix(s.drop_last(), k);
        assert(s.drop_last().take(k) =~= s.take(k));
    }
    if s.take(k).len() > 0 {
        assert(longest_run(s.take(k)) >= trailing_run(s.take(k)));
    }
}

/// No run of backticks in `s` is longer than [`longest_run`] says.
pub proof fn lemma_no_longer_run(s: Seq<char>, start: int, n: nat)
    requires
        0 <= start,
        start + n <= s.len(),
        s.subrange(start, start + n) == backticks(n),
    ensures
        n <= longest_run(s),
{
    let upto = s.take(start + n);
    assert forall|k: int| upto.len() - n <= k < upto.len() implies #[trigger] upto[k] == '`' by {
        assert(s.subrange(start, start + n)[k - start] == '`');
    }
    lemma_trailing_run_at_least(upto, n);
    lemma_longest_run_of_prefix(s, start + n);
}

/// The fence around a block never occurs inside what it holds: not in the
/// command, and not in the output, however many backticks either of them
/// prints. So the fence that opens a block is the fence that closes it.
pub proof fn fence_outlasts_contents(command: Option<Seq<char>>, output: Seq<char>)
    ensures
        fence_length(command, output) >= 3,
        forall|i: int|
            0 <= i && i + fence_length(command, output) <= output.len() ==> #[trigger] output.subrange(
                i,
                i + fence_length(command, output),
            ) != backticks(fence_length(command, output)),
        forall|c: Seq<char>, i: int|
            command == Some(c) && 0 <= i && i + fence_length(command, output) <= c.len()
                ==> #[trigger] c.subrange(i, i + fence_length(command, output)) != backticks(
                fence_length(command, output),
            ),
{
    let n = fence_length(command, output);
    assert forall|i: int| 0 <= i && i + n <= output.len() implies #[trigger] output.subrange(
        i,
        i + n,
    ) != backticks(n) by {
        if output.subrange(i, i + n) == backticks(n) {
            lemma_no_longer_run(output, i, n);
        }
    }
    assert forall|c: Seq<char>, i: int|
        command == Some(c) && 0 <= i && i + n <= c.len() implies #[trigger] c.subrange(
        i,
        i + n,
    ) != backticks(n) by {
        if c.subrange(i, i + n) == backticks(n) {
            lemma_no_longer_run(c, i, n);
        }
    }
}

/// Copied as a fence, output that says anything is kept as it was printed but
/// for its trailing whitespace: between the prompt line and the closing fence
/// stands a prefix of the output — so its first line keeps its indentation —
/// that ends on a character that is not whitespace, and everything after it
/// in the output is whitespace.
pub proof fn fence_keeps_the_output_but_its_trailing_space(
    block: Option<&BlockFacts>,
    output: Seq<char>,
)
    requires
        !is_blank(output),
    ensures
        ({
            let text = markdown_text(block, output, Shape::Fenced);
            let fence = backticks(fence_length(command_of(block), output));
            let head = fence + FENCE_LANGUAGE@ + "\n"@ + match command_of(block) {
                Some(command) => "$ "@ + command + "\n"@,
                None => Seq::empty(),
            };
            let tail = "\n"@ + fence + "\n"@;
            let body = text.subrange(head.len() as int, text.len() - tail.len());
            &&& head.len() + tail.len() < text.len()
            &&& text == head + body + tail
            &&& body.len() > 0
            &&& body == output.take(body.len() as int)
            &&& body[0] == output[0]
            &&& !is_space(body.last())
            &&& forall|j: int| body.len() <= j < output.len() ==> is_space(#[trigger] output[j])
        }),
{
    lemma_trim_end_is_prefix(output);
    lemma_trim_end_empty(output);
    lemma_trim_end_drops_space(output);
    let text = markdown_text(block, output, Shape::Fenced);
    let fence = backticks(fence_length(command_of(block), output));
    let head = fence + FENCE_LANGUAGE@ + "\n"@ + match command_of(block) {
        Some(command) => "$ "@ + command + "\n"@,
        None => Seq::empty(),
    };
    let tail = "\n"@ + fence + "\n"@;
    let kept = trim_end(output);
    assert(text =~= head + kept + tail);
    assert((head + kept + tail).subrange(head.len() as int, text.len() - tail.len()) =~= kept);
    assert(kept[0] == output.take(kept.len() as int)[0]);
}

/// A report says how the command ended right under its heading: "Succeeded"
/// for a status of zero and for no other, and for any other status "Exited "
/// and the status as `i32::to_string` writes it — followed by where it ran or
/// by the end of the sentence.
pub proof fn report_says_how_it_ended(block: BlockFacts, output: Seq<char>, status: i32)
    requires
        block.ran matches Some(ran) && ran.exit == Some(status),
        command_of(Some(&block)) is Some || !is_blank(output),
    ensures
        ({
            let text = markdown_text(Some(&block), output, Shape::Report);
            let head = match command_of(Some(&block)) {
                Some(command) => "### `"@ + command + "`\n\n"@,
                None => Seq::empty(),
            };
            let said = if status == 0 {
                "Succeeded"@
            } else {
                "Exited "@ + decimal(status as int)
            };
            &&& head.len() + said.len() < text.len()
            &&& text.take(head.len() as int) == head
            &&& text.subrange(head.len() as int, (head.len() + said.len()) as int) == said
            &&& text[(head.len() + said.len()) as int] == ' ' || text[(head.len() + said.len()) as int] == '.'
        }),
{
    reveal_strlit("Succeeded");
    reveal_strlit("Exited ");
    reveal_strlit(" in `");
    reveal_strlit(".\n\n");
    let b = Some(&block);
    let head = heading(command_of(b));
    let said = status_words(exit_of(b));
    let placed = place_words(said, place_of(b));
    let text = markdown_text(b, output, Shape::Report);
    let rest = placed + ".\n\n"@ + fenced_text(command_of(b), output);
    assert(said.len() > 0);
    assert(sentence(b) =~= said + placed + ".\n\n"@);
    assert(text =~= head + said + rest);
    if place_of(b) is Some {
        assert(placed[0] == ' ');
        assert(rest[0] == ' ');
    } else {
        assert(placed.len() == 0);
        assert(rest[0] == '.');
    }
    assert(text[(head.len() + said.len()) as int] == rest[0]);
    assert(text.take(head.len() as int) =~= head);
    assert(text.subrange(head.len() as int, (head.len() + said.len()) as int) =~= said);
}

} // verus!
