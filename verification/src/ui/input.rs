//! Reading a line of input as a command.
//!
//! A line is split on single spaces. The first token is the opcode. After
//! `/load`, every remaining token is concatenated, with nothing between
//! them, into the text from which a feed is to be fetched.

use vstd::prelude::*;

verus! {

/// The model of a [`Command`].
#[verifier::ext_equal]
pub enum CommandView {
    NoOp,
    FetchPodcastFeed(Seq<char>),
}

/// What a line of input asks for.
#[derive(Debug, PartialEq, Eq)]
pub enum Command {
    NoOp,
    FetchPodcastFeed(String),
}

impl View for Command {
    type V = CommandView;

    open spec fn view(&self) -> CommandView {
        match self {
            Command::NoOp => CommandView::NoOp,
            Command::FetchPodcastFeed(text) => CommandView::FetchPodcastFeed(text@),
        }
    }
}

impl Default for Command {
    fn default() -> (r: Self)
        ensures
            r@ == CommandView::NoOp,
    {
        Command::NoOp
    }
}

/// The opcode that asks for a feed.
pub open spec fn load_opcode() -> Seq<char> {
    "/load"@
}

/// The number of characters before the first space of `line`, which is the
/// whole length where it holds no space.
pub open spec fn first_token_len(line: Seq<char>) -> nat
    decreases line.len(),
{
    if line.len() == 0 || line[0] == ' ' {
        0
    } else {
        1 + first_token_len(line.drop_first())
    }
}

/// The tokens of `line`: the pieces between its spaces, in order. A line
/// with `k` spaces has `k + 1` tokens, some of which may be empty.
pub open spec fn tokens(line: Seq<char>) -> Seq<Seq<char>>
    decreases line.len(),
{
    let n = first_token_len(line) as int;
    if n >= line.len() {
        seq![line]
    } else {
        seq![line.take(n)] + tokens(line.skip(n + 1))
    }
}

/// `text` with its spaces taken out.
pub open spec fn without_spaces(text: Seq<char>) -> Seq<char> {
    text.filter(|c: char| c != ' ')
}

/// The command that `line` stands for.
pub open spec fn parse_spec(line: Seq<char>) -> CommandView {
    let parts = tokens(line);
    if parts[0] == load_opcode() {
        CommandView::FetchPodcastFeed(parts.skip(1).flatten())
    } else {
        CommandView::NoOp
    }
}

/// Reads a line of input. Never fails: what is not recognised is `NoOp`.
pub fn parse(s: &str) -> (r: Command)
    ensures
        r@ == parse_spec(s@),
{
    let ghost line = s@;
    let ghost mut cut: int = 0;
    let mut op = String::new();
    let mut rest = String::new();
    let mut in_rest = false;
    for c in it: s.chars()
        invariant
            it.seq() == line,
            !in_rest ==> op@ == line.take(it.index() as int) && rest@.len() == 0
                && forall|j: int| 0 <= j < it.index() ==> line[j] != ' ',
            in_rest ==> 0 <= cut < it.index() && line[cut] == ' ' && op@ == line.take(cut)
                && rest@ == without_spaces(line.subrange(cut, it.index() as int))
                && forall|j: int| 0 <= j < cut ==> line[j] != ' ',
    {
        let ghost i = it.index() as int;
        if c == ' ' {
            if !in_rest {
                proof {
                    cut = i;
                }
                in_rest = true;
            }
        } else if in_rest {
            rest.push(c);
        } else {
            op.push(c);
        }
        proof {
            if in_rest {
                lemma_without_spaces_push(line.subrange(cut, i), c);
                assert(line.subrange(cut, i + 1) == line.subrange(cut, i).push(c));
            } else {
                assert(line.take(i + 1) == line.take(i).push(c));
            }
        }
    }
    proof {
        if in_rest {
            lemma_first_token_len(line, cut);
            assert(line.subrange(cut, line.len() as int) == line.skip(cut));
        } else {
            lemma_first_token_len(line, line.len() as int);
            assert(line.take(line.len() as int) == line);
            assert(line.skip(line.len() as int).len() == 0);
        }
        lemma_tokens(line);
    }
    let load = "/load".to_owned();
    if op == load {
        Command::FetchPodcastFeed(rest)
    } else {
        Command::NoOp
    }
}

/// Taking the spaces out of a text with one more character at its end.
proof fn lemma_without_spaces_push(text: Seq<char>, c: char)
    ensures
        without_spaces(text.push(c)) == if c == ' ' {
            without_spaces(text)
        } else {
            without_spaces(text).push(c)
        },
{
    reveal(Seq::filter);
    assert(text.push(c).drop_last() == text);
}

/// A text without spaces is left as it is.
proof fn lemma_without_spaces_none(text: Seq<char>)
    requires
        forall|j: int| 0 <= j < text.len() ==> text[j] != ' ',
    ensures
        without_spaces(text) == text,
    decreases text.len(),
{
    reveal(Seq::filter);
    if text.len() > 0 {
        lemma_without_spaces_none(text.drop_last());
        assert(text.drop_last().push(text.last()) == text);
    }
}

/// The first token ends at the first space, or at the end of the line.
pub proof fn lemma_first_token_len(line: Seq<char>, n: int)
    requires
        0 <= n <= line.len(),
        forall|j: int| 0 <= j < n ==> line[j] != ' ',
        n == line.len() || line[n] == ' ',
    ensures
        first_token_len(line) == n,
    decreases n,
{
    if n > 0 {
        lemma_first_token_len(line.drop_first(), n - 1);
    }
}

/// The first token holds no space, and is followed by one unless the line
/// ends there.
pub proof fn lemma_first_token(line: Seq<char>)
    ensures
        first_token_len(line) <= line.len(),
        forall|j: int| 0 <= j < first_token_len(line) ==> line[j] != ' ',
        first_token_len(line) == line.len() || line[first_token_len(line) as int] == ' ',
    decreases line.len(),
{
    if line.len() == 0 || line[0] == ' ' {
    } else {
        lemma_first_token(line.drop_first());
        assert forall|j: int| 0 <= j < first_token_len(line) implies line[j] != ' ' by {
            if j > 0 {
                assert(line[j] == line.drop_first()[j - 1]);
            }
        }
    }
}

/// The first token is the line up to its first space; the others, put
/// together, are what follows with the spaces taken out.
pub proof fn lemma_tokens(line: Seq<char>)
    ensures
        tokens(line).len() >= 1,
        tokens(line)[0] == line.take(first_token_len(line) as int),
        tokens(line).flatten() == without_spaces(line),
        tokens(line).skip(1).flatten() == without_spaces(line.skip(first_token_len(line) as int)),
    decreases line.len(),
{
    let n = first_token_len(line) as int;
    lemma_first_token(line);
    lemma_without_spaces_none(line.take(n));
    if n >= line.len() {
        assert(line.take(n) == line);
        assert(tokens(line).skip(1) == Seq::<Seq<char>>::empty());
        assert(line.skip(n) == Seq::<char>::empty());
        reveal(Seq::filter);
        seq![line].lemma_flatten_one_element();
    } else {
        let tail = line.skip(n + 1);
        lemma_tokens(tail);
        assert(tokens(line).skip(1) == tokens(tail));
        assert(tokens(line).drop_first() == tokens(tail));
        lemma_without_spaces_push(Seq::<char>::empty(), ' ');
        assert(seq![' '] == Seq::<char>::empty().push(' '));
        assert(without_spaces(Seq::<char>::empty()) == Seq::<char>::empty()) by {
            reveal(Seq::filter);
        }
        assert(line.skip(n) == seq![' '] + tail);
        assert(line == line.take(n) + line.skip(n));
        Seq::filter_distributes_over_add(seq![' '], tail, |c: char| c != ' ');
        Seq::filter_distributes_over_add(line.take(n), line.skip(n), |c: char| c != ' ');
    }
}

/// The load opcode, a space and then any text ask for a feed at that text
/// with its spaces taken out; so at the text itself where it holds no space,
/// as no URL does.
pub proof fn lemma_parse_load(target: Seq<char>)
    ensures
        parse_spec(load_opcode() + seq![' '] + target) == CommandView::FetchPodcastFeed(
            without_spaces(target),
        ),
        (forall|j: int| 0 <= j < target.len() ==> target[j] != ' ') ==> parse_spec(
            load_opcode() + seq![' '] + target,
        ) == CommandView::FetchPodcastFeed(target),
{
    let line = load_opcode() + seq![' '] + target;
    reveal_strlit("/load");
    lemma_first_token_len(line, 5);
    lemma_tokens(line);
    assert(line.take(5) == load_opcode());
    assert(line.skip(5) == seq![' '] + target);
    lemma_without_spaces_push(Seq::<char>::empty(), ' ');
    assert(seq![' '] == Seq::<char>::empty().push(' '));
    assert(without_spaces(Seq::<char>::empty()) == Seq::<char>::empty()) by {
        reveal(Seq::filter);
    }
    Seq::filter_distributes_over_add(seq![' '], target, |c: char| c != ' ');
    if forall|j: int| 0 <= j < target.len() ==> target[j] != ' ' {
        lemma_without_spaces_none(target);
    }
}

/// A line asks for a feed exactly where its first token is the load opcode.
/// Every other line, the empty one among them, asks for nothing.
pub proof fn lemma_parse_no_op(line: Seq<char>)
    ensures
        parse_spec(line) == CommandView::NoOp <==> line.take(first_token_len(line) as int)
            != load_opcode(),
{
    lemma_tokens(line);
}

/// What is asked for holds no space.
pub proof fn lemma_target_has_no_space(line: Seq<char>)
    ensures
        parse_spec(line) matches CommandView::FetchPodcastFeed(target) ==> !target.contains(' '),
{
    lemma_tokens(line);
    let rest = line.skip(first_token_len(line) as int);
    assert forall|j: int| 0 <= j < without_spaces(rest).len() implies without_spaces(rest)[j]
        != ' ' by {
        rest.lemma_filter_pred(|c: char| c != ' ', j);
    }
}

} // verus!
