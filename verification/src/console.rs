//! What a command prints.

use crate::text;
use vstd::prelude::*;
use vstd::string::StringExecFns;

verus! {

/// A line that a command prints.
#[derive(Debug)]
pub enum Output {
    Stdout(String),
    Stderr(String),
}

/// The model of a line that a command prints.
pub enum OutputModel {
    Stdout(Seq<char>),
    Stderr(Seq<char>),
}

impl View for Output {
    type V = OutputModel;

    open spec fn view(&self) -> OutputModel {
        match *self {
            Output::Stdout(line) => OutputModel::Stdout(line@),
            Output::Stderr(line) => OutputModel::Stderr(line@),
        }
    }
}

/// The models of the lines that a command prints.
pub open spec fn outputs(lines: Seq<Output>) -> Seq<OutputModel> {
    lines.map_values(|line: Output| line@)
}

/// A line on the standard output.
pub open spec fn out(line: Seq<char>) -> OutputModel {
    OutputModel::Stdout(line)
}

/// A line on the standard error.
pub open spec fn err(line: Seq<char>) -> OutputModel {
    OutputModel::Stderr(line)
}

/// Lines on the standard output.
pub open spec fn outs(lines: Seq<Seq<char>>) -> Seq<OutputModel> {
    lines.map_values(|line: Seq<char>| out(line))
}

/// The remarks, unless the command prints JSON only.
pub open spec fn unless_json(json: bool, remarks: Seq<OutputModel>) -> Seq<OutputModel> {
    if json {
        seq![]
    } else {
        remarks
    }
}

/// Whether lines are all on the standard error.
pub open spec fn no_stdout(lines: Seq<OutputModel>) -> bool {
    forall|i: int| 0 <= i < lines.len() ==> (#[trigger] lines[i]) is Stderr
}

/// The remarks, unless the command prints JSON only.
pub fn remarks(json: bool, lines: Vec<Output>) -> (r: Vec<Output>)
    ensures
        outputs(r@) == unless_json(json, outputs(lines@)),
{
    if json {
        let r: Vec<Output> = Vec::new();
        assert(outputs(r@) =~= seq![]);
        r
    } else {
        lines
    }
}

/// The lines of `first`, then those of `second`.
pub fn both(first: Vec<Output>, second: Vec<Output>) -> (r: Vec<Output>)
    ensures
        outputs(r@) == outputs(first@) + outputs(second@),
{
    let mut r = first;
    let mut more = second;
    r.append(&mut more);
    assert(outputs(r@) =~= outputs(first@) + outputs(second@));
    r
}

/// Lines on the standard output.
pub fn stdout_lines(lines: Vec<String>) -> (r: Vec<Output>)
    ensures
        outputs(r@) == outs(text::texts(lines@)),
{
    let ghost all = text::texts(lines@);
    let mut r: Vec<Output> = Vec::new();
    let mut i: usize = 0;
    assert(outputs(r@) =~= outs(all.take(0)));
    while i < lines.len()
        invariant
            i <= lines@.len(),
            all == text::texts(lines@),
            outputs(r@) == outs(all.take(i as int)),
        decreases lines@.len() - i,
    {
        let ghost before = outputs(r@);
        r.push(Output::Stdout(lines[i].clone()));
        assert(outputs(r@) =~= before.push(out(all[i as int])));
        assert(outs(all.take(i + 1)) =~= outs(all.take(i as int)).push(out(all[i as int])));
        i = i + 1;
    }
    assert(all.take(i as int) =~= all);
    r
}

/// Whether a text begins with a style: an escape character, a bracket, and an `m` that ends it.
pub open spec fn begins_with_style(s: Seq<char>) -> bool {
    s.len() >= 2 && s[0] == '\x1b' && s[1] == '[' && text::find_char(s, 'm') < s.len()
}

/// A text without its styles.
pub open spec fn unstyled(s: Seq<char>) -> Seq<char>
    decreases s.len(),
    via unstyled_decreases
{
    if s.len() == 0 {
        seq![]
    } else if begins_with_style(s) {
        unstyled(s.skip(text::find_char(s, 'm') + 1))
    } else {
        seq![s[0]] + unstyled(s.skip(1))
    }
}

#[via_fn]
proof fn unstyled_decreases(s: Seq<char>) {
    text::lemma_find_char(s, 'm');
}

/// Whether a text holds no escape character.
pub open spec fn no_escape(s: Seq<char>) -> bool {
    forall|i: int| 0 <= i < s.len() ==> #[trigger] s[i] != '\x1b'
}

/// Whether each escape character of a text begins a style.
pub open spec fn well_styled(s: Seq<char>) -> bool
    decreases s.len(),
    via well_styled_decreases
{
    if s.len() == 0 {
        true
    } else if s[0] == '\x1b' {
        begins_with_style(s) && well_styled(s.skip(text::find_char(s, 'm') + 1))
    } else {
        well_styled(s.skip(1))
    }
}

#[via_fn]
proof fn well_styled_decreases(s: Seq<char>) {
    text::lemma_find_char(s, 'm');
}

/// Whether a text shows another in styles: the other is what is left without them.
pub open spec fn shows(styled: Seq<char>, plain: Seq<char>) -> bool {
    well_styled(styled) && unstyled(styled) == plain && no_escape(plain)
}

/// Styles are taken out of two texts as out of the one that they make.
proof fn lemma_unstyled_concat(a: Seq<char>, b: Seq<char>)
    requires
        well_styled(a),
    ensures
        unstyled(a + b) == unstyled(a) + unstyled(b),
        well_styled(b) ==> well_styled(a + b),
    decreases a.len(),
{
    let all = a + b;
    if a.len() == 0 {
        assert(all =~= b);
        assert(unstyled(a) + unstyled(b) =~= unstyled(b));
    } else if a[0] == '\x1b' {
        let end = text::find_char(a, 'm');
        text::lemma_find_char(a, 'm');
        text::lemma_find_char_is(all, 'm', end);
        assert(all.skip(end + 1) =~= a.skip(end + 1) + b);
        lemma_unstyled_concat(a.skip(end + 1), b);
    } else {
        assert(all.skip(1) =~= a.skip(1) + b);
        lemma_unstyled_concat(a.skip(1), b);
        assert(unstyled(all) =~= unstyled(a) + unstyled(b));
    }
}

/// Texts that are shown in styles, one after the other.
pub proof fn lemma_shows_both(a: Seq<char>, plain_a: Seq<char>, b: Seq<char>, plain_b: Seq<char>)
    requires
        shows(a, plain_a),
        shows(b, plain_b),
    ensures
        shows(a + b, plain_a + plain_b),
{
    lemma_unstyled_concat(a, b);
}

/// A text without escape characters shows itself.
pub proof fn lemma_shows_itself(s: Seq<char>)
    requires
        no_escape(s),
    ensures
        shows(s, s),
    decreases s.len(),
{
    if s.len() > 0 {
        lemma_shows_itself(s.skip(1));
    }
    assert(unstyled(s) =~= s);
}

/// A style alone shows nothing.
pub proof fn lemma_style_shows_nothing(style: Seq<char>)
    requires
        style.len() >= 3,
        style[0] == '\x1b',
        style[1] == '[',
        style.last() == 'm',
        forall|i: int| 0 <= i < style.len() - 1 ==> #[trigger] style[i] != 'm',
    ensures
        shows(style, seq![]),
{
    text::lemma_find_char_is(style, 'm', style.len() - 1);
    let rest = style.skip(style.len() as int);
    assert(rest.len() == 0);
    assert(unstyled(rest) =~= seq![]);
    assert(well_styled(rest));
    assert(unstyled(style) =~= seq![]);
}

/// A text in a style, where styles are shown.
pub open spec fn painted(use_color: bool, style: Seq<char>, s: Seq<char>) -> Seq<char> {
    if use_color {
        style + s + "\x1b[0m"@
    } else {
        s
    }
}

/// A text in a style, where styles are shown.
pub fn paint(use_color: bool, style: &str, s: &str) -> (r: String)
    ensures
        r@ == painted(use_color, style@, s@),
{
    if use_color {
        style.to_owned().concat(s).concat("\x1b[0m")
    } else {
        s.to_owned()
    }
}

/// A style takes nothing away from a text and adds nothing to it that is shown.
pub proof fn law_painted_text_shows_itself(use_color: bool, style: Seq<char>, s: Seq<char>)
    requires
        shows(style, seq![]),
        no_escape(s),
    ensures
        shows(painted(use_color, style, s), s),
        !use_color ==> painted(use_color, style, s) == s,
{
    reveal_strlit("\x1b[0m");
    let reset = "\x1b[0m"@;
    lemma_style_shows_nothing(reset);
    lemma_shows_itself(s);
    lemma_shows_both(style, seq![], s, s);
    lemma_shows_both(style + s, seq![] + s, reset, seq![]);
    assert(seq![] + s + seq![] =~= s);
}

/// Remarks are printed all and in order, or, in JSON mode, not at all.
pub proof fn law_remarks_are_for_people(json: bool, remarks: Seq<OutputModel>)
    ensures
        json ==> unless_json(json, remarks).len() == 0,
        !json ==> unless_json(json, remarks) == remarks,
{
}

} // verus!
