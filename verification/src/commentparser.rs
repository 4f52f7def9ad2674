//! Parser for the bot commands that users write in pull-request comments.
//!
//! A comment is read line by line. A line that starts (after blanks) with a
//! mention of the bot, `@ofborg` or `@grahamcofborg` in any ASCII case,
//! followed by a command, yields instructions; one line may chain several
//! mention/command pairs. The commands are
//!
//! * `build <attr>...`: build the given attributes,
//! * `test <name>...`: build `nixosTests.<name>` for each name,
//! * `eval`: evaluate the pull request again.
//!
//! Everything else is commentary and is ignored.

use vstd::prelude::*;

use crate::text::{
    lemma_lines_of_join,     char_eq_ignore_ascii_case, chars_eq_ignore_ascii_case, chars_of, copy_range, lines_of, split_lines,
    string_from_chars,
};

verus! {

/// Which package set a build instruction refers to.
#[derive(PartialEq, Eq, Debug, Clone, Copy)]
pub enum Subset {
    Nixpkgs,
    NixOS,
}

/// One command found in a comment.
#[derive(PartialEq, Eq, Debug, Clone)]
pub enum Instruction {
    Build(Subset, Vec<String>),
    Eval,
}

/// The mathematical value of an [`Instruction`]: attribute names as
/// character sequences.
pub enum SpecInstruction {
    Build(Subset, Seq<Seq<char>>),
    Eval,
}

/// The character sequences of a vector of strings.
pub open spec fn strings_view(v: Seq<String>) -> Seq<Seq<char>> {
    v.map_values(|t: String| t@)
}

impl View for Instruction {
    type V = SpecInstruction;

    open spec fn view(&self) -> SpecInstruction {
        match self {
            Instruction::Build(subset, attrs) => SpecInstruction::Build(*subset, strings_view(attrs@)),
            Instruction::Eval => SpecInstruction::Eval,
        }
    }
}

/// The mathematical values of a sequence of instructions.
pub open spec fn instructions_view(v: Seq<Instruction>) -> Seq<SpecInstruction> {
    v.map_values(|i: Instruction| i@)
}

// ---------------------------------------------------------------------
// The grammar
// ---------------------------------------------------------------------

/// Blank characters that separate the words of a command.
pub open spec fn is_multispace(c: char) -> bool {
    c == ' ' || c == '\t' || c == '\r' || c == '\n'
}

/// ASCII whitespace, which ends an attribute name (`char::is_ascii_whitespace`).
pub open spec fn is_ascii_whitespace(c: char) -> bool {
    c == ' ' || c == '\t' || c == '\n' || c == '\x0C' || c == '\r'
}

/// End of the run of blanks that starts at `i`.
pub open spec fn skip_blanks(s: Seq<char>, i: int) -> int
    decreases s.len() - i,
{
    if 0 <= i < s.len() && is_multispace(s[i]) {
        skip_blanks(s, i + 1)
    } else {
        i
    }
}

/// End of the run of non-whitespace characters that starts at `i`.
pub open spec fn word_end(s: Seq<char>, i: int) -> int
    decreases s.len() - i,
{
    if 0 <= i < s.len() && !is_ascii_whitespace(s[i]) {
        word_end(s, i + 1)
    } else {
        i
    }
}

/// `s` holds `p` at position `i`.
pub open spec fn has_word_at(s: Seq<char>, i: int, p: Seq<char>) -> bool {
    0 <= i && i + p.len() <= s.len() && s.subrange(i, i + p.len()) == p
}

/// `s` holds `p` at position `i`, up to ASCII case.
pub open spec fn has_word_nocase_at(s: Seq<char>, i: int, p: Seq<char>) -> bool {
    &&& 0 <= i
    &&& i + p.len() <= s.len()
    &&& forall|k: int| 0 <= k < p.len() ==> chars_eq_ignore_ascii_case(#[trigger] s[i + k], p[k])
}

pub open spec fn long_mention() -> Seq<char> {
    seq!['@', 'g', 'r', 'a', 'h', 'a', 'm', 'c', 'o', 'f', 'b', 'o', 'r', 'g']
}

pub open spec fn short_mention() -> Seq<char> {
    seq!['@', 'o', 'f', 'b', 'o', 'r', 'g']
}

pub open spec fn build_keyword() -> Seq<char> {
    seq!['b', 'u', 'i', 'l', 'd']
}

pub open spec fn test_keyword() -> Seq<char> {
    seq!['t', 'e', 's', 't']
}

pub open spec fn eval_keyword() -> Seq<char> {
    seq!['e', 'v', 'a', 'l']
}

pub open spec fn nixos_tests_prefix() -> Seq<char> {
    seq!['n', 'i', 'x', 'o', 's', 'T', 'e', 's', 't', 's', '.']
}

/// The word `w` is the mention `m`, up to ASCII case.
pub open spec fn is_mention_word(w: Seq<char>, m: Seq<char>) -> bool {
    w.len() == m.len() && has_word_nocase_at(w, 0, m)
}

/// A word that mentions the bot (`@grahamcofborg` or `@ofborg`, in any
/// ASCII case) cannot be an attribute name: it starts the next command
/// instead, so that several commands can share a line.
pub open spec fn is_mention(w: Seq<char>) -> bool {
    is_mention_word(w, long_mention()) || is_mention_word(w, short_mention())
}

/// An attribute name starts at `j`.
pub open spec fn attr_at(s: Seq<char>, j: int) -> bool {
    &&& 0 <= j < s.len()
    &&& !is_ascii_whitespace(s[j])
    &&& !is_mention(s.subrange(j, word_end(s, j)))
}

/// The attribute names that follow position `i`, each preceded by blanks,
/// and the position after the last one (before the blanks that precede
/// whatever stopped the list).
pub open spec fn attrs_from(s: Seq<char>, i: int) -> (Seq<Seq<char>>, int)
    decreases s.len() - i,
{
    let j = skip_blanks(s, i);
    if attr_at(s, j) {
        let e = word_end(s, j);
        proof {
            lemma_skip_blanks_bounds(s, i);
            lemma_word_end_bounds(s, j);
        }
        let rest = attrs_from(s, e);
        (seq![s.subrange(j, e)] + rest.0, rest.1)
    } else {
        (seq![], i)
    }
}

/// `build` or `test` followed by at least one blank and at least one
/// attribute name.
pub open spec fn attr_command(s: Seq<char>, j: int, keyword: Seq<char>) -> bool {
    let k = j + keyword.len();
    &&& has_word_at(s, j, keyword)
    &&& skip_blanks(s, k) > k
    &&& attrs_from(s, k).0.len() > 0
}

/// The command at position `i` (after the blanks that follow a mention):
/// the instruction and the position after it.
pub open spec fn command_at(s: Seq<char>, i: int) -> Option<(SpecInstruction, int)> {
    let j = skip_blanks(s, i);
    if attr_command(s, j, build_keyword()) {
        let r = attrs_from(s, j + 5);
        Some((SpecInstruction::Build(Subset::Nixpkgs, r.0), r.1))
    } else if attr_command(s, j, test_keyword()) {
        let r = attrs_from(s, j + 4);
        Some(
            (
                SpecInstruction::Build(
                    Subset::Nixpkgs,
                    r.0.map_values(|t: Seq<char>| nixos_tests_prefix() + t),
                ),
                r.1,
            ),
        )
    } else if has_word_at(s, j, eval_keyword()) {
        Some((SpecInstruction::Eval, j + 4))
    } else {
        None
    }
}

/// End of the mention of the bot at `j`, if there is one there.
pub open spec fn mention_end(s: Seq<char>, j: int) -> Option<int> {
    if has_word_nocase_at(s, j, long_mention()) {
        Some(j + 14)
    } else if has_word_nocase_at(s, j, short_mention()) {
        Some(j + 7)
    } else {
        None
    }
}

/// The instruction of the mention/command pair that starts (after blanks)
/// at `i`, and the position after it.
pub open spec fn step_at(s: Seq<char>, i: int) -> Option<(SpecInstruction, int)> {
    let j = skip_blanks(s, i);
    match mention_end(s, j) {
        Some(t) => if skip_blanks(s, t) > t {
            command_at(s, skip_blanks(s, t))
        } else {
            None
        },
        None => None,
    }
}

/// The instructions of the longest chain of mention/command pairs that
/// starts at `i`.
pub open spec fn instructions_from(s: Seq<char>, i: int) -> Seq<SpecInstruction>
    decreases s.len() - i,
{
    match step_at(s, i) {
        Some((ins, e)) => if i < e <= s.len() {
            seq![ins] + instructions_from(s, e)
        } else {
            seq![]
        },
        None => seq![],
    }
}

/// What [`parse_line`] returns for a line with characters `s`.
pub open spec fn spec_parse_line(s: Seq<char>) -> Option<Seq<SpecInstruction>> {
    let r = instructions_from(s, 0);
    if r.len() == 0 {
        None
    } else {
        Some(r)
    }
}

/// The instructions of one line, none when the line holds no command.
pub open spec fn line_instructions(s: Seq<char>) -> Seq<SpecInstruction> {
    instructions_from(s, 0)
}

/// The instructions of a sequence of lines, in order.
pub open spec fn instructions_of_lines(lines: Seq<Seq<char>>) -> Seq<SpecInstruction>
    decreases lines.len(),
{
    if lines.len() == 0 {
        seq![]
    } else {
        line_instructions(lines[0]) + instructions_of_lines(lines.drop_first())
    }
}

/// What [`parse`] returns for a comment with characters `s`.
pub open spec fn spec_parse(s: Seq<char>) -> Option<Seq<SpecInstruction>> {
    let r = instructions_of_lines(lines_of(s));
    if r.len() == 0 {
        None
    } else {
        Some(r)
    }
}

// ---------------------------------------------------------------------
// Facts about the grammar
// ---------------------------------------------------------------------

pub proof fn lemma_skip_blanks_bounds(s: Seq<char>, i: int)
    ensures
        skip_blanks(s, i) >= i,
        0 <= i <= s.len() ==> skip_blanks(s, i) <= s.len(),
    decreases s.len() - i,
{
    if 0 <= i < s.len() && is_multispace(s[i]) {
        lemma_skip_blanks_bounds(s, i + 1);
    }
}

pub proof fn lemma_word_end_bounds(s: Seq<char>, i: int)
    ensures
        word_end(s, i) >= i,
        0 <= i <= s.len() ==> word_end(s, i) <= s.len(),
        0 <= i < s.len() && !is_ascii_whitespace(s[i]) ==> word_end(s, i) > i,
    decreases s.len() - i,
{
    if 0 <= i < s.len() && !is_ascii_whitespace(s[i]) {
        lemma_word_end_bounds(s, i + 1);
    }
}

pub proof fn lemma_attrs_from_bounds(s: Seq<char>, i: int)
    requires
        0 <= i <= s.len(),
    ensures
        i <= attrs_from(s, i).1 <= s.len(),
        attrs_from(s, i).0.len() > 0 ==> attrs_from(s, i).1 > i,
    decreases s.len() - i,
{
    let j = skip_blanks(s, i);
    lemma_skip_blanks_bounds(s, i);
    if attr_at(s, j) {
        let e = word_end(s, j);
        lemma_word_end_bounds(s, j);
        lemma_attrs_from_bounds(s, e);
    }
}

/// An attribute name as the parser yields it: non-empty, without ASCII
/// whitespace, and not a mention of the bot.
pub open spec fn is_attribute_name(w: Seq<char>) -> bool {
    &&& w.len() > 0
    &&& forall|m: int| 0 <= m < w.len() ==> !is_ascii_whitespace(#[trigger] w[m])
    &&& !is_mention(w)
}

/// A build instruction builds from nixpkgs, names at least one attribute,
/// and every name is a well-formed attribute name.
pub open spec fn is_well_formed(i: SpecInstruction) -> bool {
    match i {
        SpecInstruction::Build(subset, attrs) => subset == Subset::Nixpkgs && attrs.len() > 0
            && forall|k: int| 0 <= k < attrs.len() ==> is_attribute_name(#[trigger] attrs[k]),
        SpecInstruction::Eval => true,
    }
}

proof fn lemma_word_chars(s: Seq<char>, j: int, m: int)
    requires
        j <= m < word_end(s, j),
    ensures
        0 <= m < s.len(),
        !is_ascii_whitespace(s[m]),
    decreases s.len() - j,
{
    if 0 <= j < s.len() && !is_ascii_whitespace(s[j]) {
        if m > j {
            lemma_word_chars(s, j + 1, m);
        }
    }
}

proof fn lemma_attrs_are_names(s: Seq<char>, i: int)
    requires
        0 <= i <= s.len(),
    ensures
        forall|k: int|
            0 <= k < attrs_from(s, i).0.len() ==> is_attribute_name(#[trigger] attrs_from(s, i).0[k]),
    decreases s.len() - i,
{
    let j = skip_blanks(s, i);
    lemma_skip_blanks_bounds(s, i);
    if attr_at(s, j) {
        let e = word_end(s, j);
        lemma_word_end_bounds(s, j);
        lemma_attrs_are_names(s, e);
        let w = s.subrange(j, e);
        assert forall|m: int| 0 <= m < w.len() implies !is_ascii_whitespace(#[trigger] w[m]) by {
            lemma_word_chars(s, j, j + m);
        }
        let r = attrs_from(s, i).0;
        assert(r =~= seq![w] + attrs_from(s, e).0);
        assert forall|k: int| 0 <= k < r.len() implies is_attribute_name(#[trigger] r[k]) by {
            if k > 0 {
                assert(r[k] == attrs_from(s, e).0[k - 1]);
            }
        }
    }
}

proof fn lemma_command_well_formed(s: Seq<char>, i: int)
    requires
        0 <= i <= s.len(),
    ensures
        command_at(s, i) matches Some((ins, e)) ==> is_well_formed(ins) && i < e <= s.len(),
{
    let j = skip_blanks(s, i);
    lemma_skip_blanks_bounds(s, i);
    if attr_command(s, j, build_keyword()) {
        lemma_attrs_are_names(s, j + 5);
        lemma_attrs_from_bounds(s, j + 5);
    } else if attr_command(s, j, test_keyword()) {
        lemma_attrs_are_names(s, j + 4);
        lemma_attrs_from_bounds(s, j + 4);
        let r = attrs_from(s, j + 4).0;
        let t = r.map_values(|w: Seq<char>| nixos_tests_prefix() + w);
        assert forall|k: int| 0 <= k < t.len() implies is_attribute_name(#[trigger] t[k]) by {
            assert(is_attribute_name(r[k]));
            let x = nixos_tests_prefix() + r[k];
            assert forall|m: int| 0 <= m < x.len() implies !is_ascii_whitespace(#[trigger] x[m]) by {
                if m >= 11 {
                    assert(x[m] == r[k][m - 11]);
                }
            }
            assert(x[0] == 'n');
            assert(!chars_eq_ignore_ascii_case(x[0int + 0], long_mention()[0]));
            assert(!chars_eq_ignore_ascii_case(x[0int + 0], short_mention()[0]));
        }
    }
}

proof fn lemma_instructions_well_formed(s: Seq<char>, i: int)
    requires
        0 <= i <= s.len(),
    ensures
        forall|k: int|
            0 <= k < instructions_from(s, i).len() ==> is_well_formed(
                #[trigger] instructions_from(s, i)[k],
            ),
    decreases s.len() - i,
{
    match step_at(s, i) {
        Some((ins, e)) => {
            if i < e <= s.len() {
                let j = skip_blanks(s, i);
                lemma_skip_blanks_bounds(s, i);
                let t = mention_end(s, j)->0;
                lemma_skip_blanks_bounds(s, t);
                lemma_command_well_formed(s, skip_blanks(s, t));
                lemma_instructions_well_formed(s, e);
                let r = instructions_from(s, i);
                assert(r =~= seq![ins] + instructions_from(s, e));
                assert forall|k: int| 0 <= k < r.len() implies is_well_formed(#[trigger] r[k]) by {
                    if k > 0 {
                        assert(r[k] == instructions_from(s, e)[k - 1]);
                    }
                }
            }
        },
        None => {},
    }
}

proof fn lemma_lines_well_formed(lines: Seq<Seq<char>>)
    ensures
        forall|k: int|
            0 <= k < instructions_of_lines(lines).len() ==> is_well_formed(
                #[trigger] instructions_of_lines(lines)[k],
            ),
    decreases lines.len(),
{
    if lines.len() > 0 {
        lemma_instructions_well_formed(lines[0], 0);
        lemma_lines_well_formed(lines.drop_first());
        let a = line_instructions(lines[0]);
        let b = instructions_of_lines(lines.drop_first());
        let r = instructions_of_lines(lines);
        assert(r == a + b);
        assert forall|k: int| 0 <= k < r.len() implies is_well_formed(#[trigger] r[k]) by {
            if k < a.len() {
                assert(r[k] == a[k]);
            } else {
                assert(r[k] == b[k - a.len()]);
            }
        }
    }
}

/// Every instruction that a comment yields is well formed: a build names at
/// least one attribute, and no attribute name is empty or holds whitespace.
pub proof fn law_parse_yields_well_formed_instructions(text: Seq<char>)
    ensures
        spec_parse(text) matches Some(r) ==> r.len() > 0 && forall|k: int|
            0 <= k < r.len() ==> is_well_formed(#[trigger] r[k]),
{
    lemma_lines_well_formed(lines_of(text));
}

/// What a single line yields: nothing, or a non-empty list of well-formed
/// instructions, and something only where the line, after its leading
/// blanks, starts with a mention of the bot in any ASCII case.
pub proof fn law_parse_line_results(line: Seq<char>)
    ensures
        spec_parse_line(line) matches Some(r) ==> {
            &&& r.len() > 0
            &&& forall|k: int| 0 <= k < r.len() ==> is_well_formed(#[trigger] r[k])
            &&& has_word_nocase_at(line, skip_blanks(line, 0), long_mention())
                || has_word_nocase_at(line, skip_blanks(line, 0), short_mention())
        },
{
    lemma_instructions_well_formed(line, 0);
    lemma_skip_blanks_bounds(line, 0);
}

/// A line whose first non-blank character does not start a mention of the
/// bot yields no instruction: commands must open the line.
pub proof fn law_commands_must_open_the_line(line: Seq<char>)
    requires
        skip_blanks(line, 0) >= line.len() || line[skip_blanks(line, 0)] != '@',
    ensures
        spec_parse_line(line) is None,
{
    let j = skip_blanks(line, 0);
    if has_word_nocase_at(line, j, long_mention()) {
        assert(chars_eq_ignore_ascii_case(line[j + 0], long_mention()[0]));
    }
    if has_word_nocase_at(line, j, short_mention()) {
        assert(chars_eq_ignore_ascii_case(line[j + 0], short_mention()[0]));
    }
}

/// The instructions of all lines of a comment, in order.
pub open spec fn comment_instructions(text: Seq<char>) -> Seq<SpecInstruction> {
    instructions_of_lines(lines_of(text))
}

/// The parser is line based: a comment made of a line `a` and the text `b`
/// below it yields the instructions of `a` followed by those of `b`.
pub proof fn law_parse_is_line_based(a: Seq<char>, b: Seq<char>)
    requires
        forall|m: int| 0 <= m < a.len() ==> a[m] != '\n',
        a.len() == 0 || a.last() != '\r',
    ensures
        comment_instructions(a + seq!['\n'] + b) == line_instructions(a) + comment_instructions(b),
{
    lemma_lines_of_join(a, b);
    let ls = seq![a] + lines_of(b);
    assert(ls.drop_first() =~= lines_of(b));
}

/// `s` and `t` have the same length and the same characters from position
/// `k` on.
pub open spec fn agree_from(s: Seq<char>, t: Seq<char>, k: int) -> bool {
    &&& s.len() == t.len()
    &&& forall|i: int| k <= i < s.len() ==> s[i] == t[i]
}

proof fn lemma_frame_skip_blanks(s: Seq<char>, t: Seq<char>, k: int, i: int)
    requires
        agree_from(s, t, k),
        k <= i,
    ensures
        skip_blanks(s, i) == skip_blanks(t, i),
    decreases s.len() - i,
{
    if 0 <= i < s.len() && is_multispace(s[i]) {
        lemma_frame_skip_blanks(s, t, k, i + 1);
    }
}

proof fn lemma_frame_word_end(s: Seq<char>, t: Seq<char>, k: int, i: int)
    requires
        agree_from(s, t, k),
        k <= i,
    ensures
        word_end(s, i) == word_end(t, i),
    decreases s.len() - i,
{
    if 0 <= i < s.len() && !is_ascii_whitespace(s[i]) {
        lemma_frame_word_end(s, t, k, i + 1);
    }
}

proof fn lemma_frame_words(s: Seq<char>, t: Seq<char>, k: int, i: int, p: Seq<char>)
    requires
        agree_from(s, t, k),
        k <= i,
    ensures
        has_word_at(s, i, p) == has_word_at(t, i, p),
        has_word_nocase_at(s, i, p) == has_word_nocase_at(t, i, p),
{
    if 0 <= i && i + p.len() <= s.len() {
        assert(s.subrange(i, i + p.len()) =~= t.subrange(i, i + p.len()));
        assert forall|m: int| 0 <= m < p.len() implies #[trigger] s[i + m] == t[i + m] by {}
    }
}

proof fn lemma_frame_attrs(s: Seq<char>, t: Seq<char>, k: int, i: int)
    requires
        agree_from(s, t, k),
        k <= i,
    ensures
        attrs_from(s, i) == attrs_from(t, i),
    decreases s.len() - i,
{
    let j = skip_blanks(s, i);
    lemma_frame_skip_blanks(s, t, k, i);
    lemma_skip_blanks_bounds(s, i);
    lemma_frame_word_end(s, t, k, j);
    lemma_word_end_bounds(s, j);
    let e = word_end(s, j);
    if 0 <= j < s.len() {
        assert(s.subrange(j, e) =~= t.subrange(j, e));
    }
    assert(attr_at(s, j) == attr_at(t, j));
    if attr_at(s, j) {
        lemma_frame_attrs(s, t, k, e);
    }
}

proof fn lemma_frame_command(s: Seq<char>, t: Seq<char>, k: int, i: int)
    requires
        agree_from(s, t, k),
        k <= i,
    ensures
        command_at(s, i) == command_at(t, i),
{
    let j = skip_blanks(s, i);
    lemma_frame_skip_blanks(s, t, k, i);
    lemma_skip_blanks_bounds(s, i);
    lemma_frame_words(s, t, k, j, build_keyword());
    lemma_frame_words(s, t, k, j, test_keyword());
    lemma_frame_words(s, t, k, j, eval_keyword());
    lemma_frame_skip_blanks(s, t, k, j + 5);
    lemma_frame_skip_blanks(s, t, k, j + 4);
    lemma_frame_attrs(s, t, k, j + 5);
    lemma_frame_attrs(s, t, k, j + 4);
}

proof fn lemma_frame_instructions(s: Seq<char>, t: Seq<char>, k: int, i: int)
    requires
        agree_from(s, t, k),
        0 <= k <= i,
    ensures
        instructions_from(s, i) == instructions_from(t, i),
    decreases s.len() - i,
{
    let j = skip_blanks(s, i);
    lemma_frame_skip_blanks(s, t, k, i);
    lemma_skip_blanks_bounds(s, i);
    lemma_frame_words(s, t, k, j, long_mention());
    lemma_frame_words(s, t, k, j, short_mention());
    assert(mention_end(s, j) == mention_end(t, j));
    if let Some(m) = mention_end(s, j) {
        lemma_frame_skip_blanks(s, t, k, m);
        lemma_skip_blanks_bounds(s, m);
        lemma_frame_command(s, t, k, skip_blanks(s, m));
    }
    assert(step_at(s, i) == step_at(t, i));
    if let Some((ins, e)) = step_at(s, i) {
        if i < e <= s.len() {
            lemma_frame_instructions(s, t, k, e);
        }
    }
}

/// `t` holds the characters of `s` from position `k` on, `d` places later,
/// and nothing after them.
pub open spec fn agree_shifted(s: Seq<char>, t: Seq<char>, k: int, d: int) -> bool {
    &&& t.len() == s.len() + d
    &&& forall|i: int| k <= i < s.len() ==> s[i] == #[trigger] t[i + d]
}

proof fn lemma_shift_skip_blanks(s: Seq<char>, t: Seq<char>, k: int, d: int, i: int)
    requires
        agree_shifted(s, t, k, d),
        0 <= k <= i,
        0 <= k + d,
    ensures
        skip_blanks(t, i + d) == skip_blanks(s, i) + d,
    decreases s.len() - i,
{
    if i < s.len() {
        assert(t[i + d] == s[i]);
    }
    if 0 <= i < s.len() && is_multispace(s[i]) {
        lemma_shift_skip_blanks(s, t, k, d, i + 1);
        assert(i + d + 1 == (i + 1) + d);
    }
}

proof fn lemma_shift_word_end(s: Seq<char>, t: Seq<char>, k: int, d: int, i: int)
    requires
        agree_shifted(s, t, k, d),
        0 <= k <= i,
        0 <= k + d,
    ensures
        word_end(t, i + d) == word_end(s, i) + d,
    decreases s.len() - i,
{
    if i < s.len() {
        assert(t[i + d] == s[i]);
    }
    if 0 <= i < s.len() && !is_ascii_whitespace(s[i]) {
        lemma_shift_word_end(s, t, k, d, i + 1);
        assert(i + d + 1 == (i + 1) + d);
    }
}

proof fn lemma_shift_words(s: Seq<char>, t: Seq<char>, k: int, d: int, i: int, p: Seq<char>)
    requires
        agree_shifted(s, t, k, d),
        0 <= k <= i,
        0 <= k + d,
    ensures
        has_word_at(t, i + d, p) == has_word_at(s, i, p),
        has_word_nocase_at(t, i + d, p) == has_word_nocase_at(s, i, p),
{
    if i + p.len() <= s.len() {
        assert forall|m: int| 0 <= m < p.len() implies #[trigger] t[i + d + m] == s[i + m] by {
            assert(t[(i + m) + d] == s[i + m]);
        }
        assert(t.subrange(i + d, i + d + p.len()) =~= s.subrange(i, i + p.len())) by {
            assert forall|m: int| 0 <= m < p.len() implies #[trigger] t.subrange(
                i + d,
                i + d + p.len(),
            )[m] == s.subrange(i, i + p.len())[m] by {
                assert(t[i + d + m] == s[i + m]);
            }
        }
        if has_word_nocase_at(s, i, p) {
            assert forall|m: int| 0 <= m < p.len() implies chars_eq_ignore_ascii_case(
                #[trigger] t[i + d + m],
                p[m],
            ) by {
                assert(chars_eq_ignore_ascii_case(s[i + m], p[m]));
            }
        }
        if has_word_nocase_at(t, i + d, p) {
            assert forall|m: int| 0 <= m < p.len() implies chars_eq_ignore_ascii_case(
                #[trigger] s[i + m],
                p[m],
            ) by {
                assert(chars_eq_ignore_ascii_case(t[i + d + m], p[m]));
            }
        }
    }
}

proof fn lemma_shift_attrs(s: Seq<char>, t: Seq<char>, k: int, d: int, i: int)
    requires
        agree_shifted(s, t, k, d),
        0 <= k <= i,
        0 <= k + d,
    ensures
        attrs_from(t, i + d) == (attrs_from(s, i).0, attrs_from(s, i).1 + d),
    decreases s.len() - i,
{
    let j = skip_blanks(s, i);
    lemma_shift_skip_blanks(s, t, k, d, i);
    lemma_skip_blanks_bounds(s, i);
    lemma_shift_word_end(s, t, k, d, j);
    lemma_word_end_bounds(s, j);
    let e = word_end(s, j);
    if 0 <= j < s.len() {
        assert(t[j + d] == s[j]);
        assert(t.subrange(j + d, e + d) =~= s.subrange(j, e)) by {
            assert forall|m: int| 0 <= m < e - j implies t.subrange(j + d, e + d)[m] == s.subrange(
                j,
                e,
            )[m] by {
                assert(t[(j + m) + d] == s[j + m]);
            }
        }
    }
    assert(attr_at(t, j + d) == attr_at(s, j));
    if attr_at(s, j) {
        lemma_shift_attrs(s, t, k, d, e);
    }
}

proof fn lemma_shift_command(s: Seq<char>, t: Seq<char>, k: int, d: int, i: int)
    requires
        agree_shifted(s, t, k, d),
        0 <= k <= i,
        0 <= k + d,
    ensures
        command_at(t, i + d) == match command_at(s, i) {
            Some((ins, e)) => Some((ins, e + d)),
            None => None,
        },
{
    let j = skip_blanks(s, i);
    lemma_shift_skip_blanks(s, t, k, d, i);
    lemma_skip_blanks_bounds(s, i);
    lemma_shift_words(s, t, k, d, j, build_keyword());
    lemma_shift_words(s, t, k, d, j, test_keyword());
    lemma_shift_words(s, t, k, d, j, eval_keyword());
    lemma_shift_skip_blanks(s, t, k, d, j + 5);
    lemma_shift_skip_blanks(s, t, k, d, j + 4);
    lemma_shift_attrs(s, t, k, d, j + 5);
    lemma_shift_attrs(s, t, k, d, j + 4);
    assert(j + d + 5 == (j + 5) + d);
    assert(j + d + 4 == (j + 4) + d);
    assert(attr_command(t, j + d, build_keyword()) == attr_command(s, j, build_keyword()));
    assert(attr_command(t, j + d, test_keyword()) == attr_command(s, j, test_keyword()));
}

proof fn lemma_shift_instructions(s: Seq<char>, t: Seq<char>, k: int, d: int, i: int)
    requires
        agree_shifted(s, t, k, d),
        0 <= k <= i,
        0 <= k + d,
    ensures
        instructions_from(t, i + d) == instructions_from(s, i),
    decreases s.len() - i,
{
    let j = skip_blanks(s, i);
    lemma_shift_skip_blanks(s, t, k, d, i);
    lemma_skip_blanks_bounds(s, i);
    lemma_shift_words(s, t, k, d, j, long_mention());
    lemma_shift_words(s, t, k, d, j, short_mention());
    assert(mention_end(t, j + d) == match mention_end(s, j) {
        Some(m) => Some(m + d),
        None => None::<int>,
    });
    if let Some(m) = mention_end(s, j) {
        lemma_shift_skip_blanks(s, t, k, d, m);
        lemma_skip_blanks_bounds(s, m);
        lemma_shift_command(s, t, k, d, skip_blanks(s, m));
    }
    assert(step_at(t, i + d) == match step_at(s, i) {
        Some((ins, e)) => Some((ins, e + d)),
        None => None,
    });
    if let Some((ins, e)) = step_at(s, i) {
        if i < e <= s.len() {
            lemma_shift_instructions(s, t, k, d, e);
        }
    }
}

proof fn lemma_skip_blank_run(s: Seq<char>, a: int, b: int, i: int)
    requires
        0 <= a <= i <= b <= s.len(),
        forall|m: int| a <= m < b ==> is_multispace(#[trigger] s[m]),
    ensures
        skip_blanks(s, i) == skip_blanks(s, b),
    decreases b - i,
{
    if i < b {
        lemma_skip_blank_run(s, a, b, i + 1);
    }
}

/// How many blanks stand between a mention of the bot and its command does
/// not matter: a line made of a mention, one or more blanks and the rest
/// yields what it yields with a single space there.
pub proof fn law_blanks_after_the_mention_do_not_matter(
    mention: Seq<char>,
    blanks: Seq<char>,
    rest: Seq<char>,
)
    requires
        is_mention(mention),
        blanks.len() >= 1,
        forall|m: int| 0 <= m < blanks.len() ==> is_multispace(#[trigger] blanks[m]),
    ensures
        spec_parse_line(mention + blanks + rest) == spec_parse_line(mention + seq![' '] + rest),
{
    let s = mention + seq![' '] + rest;
    let t = mention + blanks + rest;
    let l = mention.len() as int;
    let n = blanks.len() as int;
    let d = n - 1;
    let k = l + 1;
    assert(agree_shifted(s, t, k, d)) by {
        assert forall|i: int| k <= i < s.len() implies s[i] == #[trigger] t[i + d] by {
            assert(s[i] == rest[i - l - 1]);
            assert(t[i + d] == rest[i + d - l - n]);
        }
    }
    assert forall|m: int| 0 <= m < l implies s[m] == mention[m] && t[m] == mention[m] by {}
    assert(chars_eq_ignore_ascii_case(mention[0int + 0], long_mention()[0])
        || chars_eq_ignore_ascii_case(mention[0int + 0], short_mention()[0]));
    assert(s[0] == '@' && t[0] == '@');
    assert(skip_blanks(s, 0) == 0);
    assert(skip_blanks(t, 0) == 0);
    assert(has_word_nocase_at(s, 0, long_mention()) == has_word_nocase_at(t, 0, long_mention())) by {
        if is_mention_word(mention, long_mention()) {
            assert forall|m: int| 0 <= m < 14 implies chars_eq_ignore_ascii_case(
                #[trigger] s[0 + m],
                long_mention()[m],
            ) && chars_eq_ignore_ascii_case(t[0 + m], long_mention()[m]) by {
                assert(chars_eq_ignore_ascii_case(mention[0 + m], long_mention()[m]));
            }
        } else {
            assert(is_mention_word(mention, short_mention()));
            assert(chars_eq_ignore_ascii_case(mention[0int + 1], short_mention()[1]));
            assert(!chars_eq_ignore_ascii_case(s[0int + 1], long_mention()[1]));
            assert(!chars_eq_ignore_ascii_case(t[0int + 1], long_mention()[1]));
        }
    }
    if !is_mention_word(mention, long_mention()) {
        assert(has_word_nocase_at(s, 0, short_mention())) by {
            assert forall|m: int| 0 <= m < 7 implies chars_eq_ignore_ascii_case(
                #[trigger] s[0 + m],
                short_mention()[m],
            ) by {
                assert(chars_eq_ignore_ascii_case(mention[0 + m], short_mention()[m]));
            }
        }
        assert(has_word_nocase_at(t, 0, short_mention())) by {
            assert forall|m: int| 0 <= m < 7 implies chars_eq_ignore_ascii_case(
                #[trigger] t[0 + m],
                short_mention()[m],
            ) by {
                assert(chars_eq_ignore_ascii_case(mention[0 + m], short_mention()[m]));
            }
        }
    }
    assert(mention_end(s, 0) == Some(l));
    assert(mention_end(t, 0) == Some(l));
    // the blanks after the mention
    assert(s[l] == ' ');
    assert(skip_blanks(s, l) == skip_blanks(s, l + 1));
    assert forall|m: int| l <= m < l + n implies is_multispace(#[trigger] t[m]) by {
        assert(t[m] == blanks[m - l]);
    }
    lemma_skip_blank_run(t, l, l + n, l);
    assert(is_multispace(t[l])) by {
        assert(t[l] == blanks[0]);
    }
    lemma_shift_skip_blanks(s, t, k, d, k);
    assert(k + d == l + n);
    let j1 = skip_blanks(s, l);
    lemma_skip_blanks_bounds(s, l + 1);
    assert(skip_blanks(t, l) == j1 + d);
    lemma_shift_command(s, t, k, d, j1);
    assert(step_at(t, 0) == match step_at(s, 0) {
        Some((ins, e)) => Some((ins, e + d)),
        None => None,
    });
    if let Some((ins, e)) = step_at(s, 0) {
        lemma_command_well_formed(s, j1);
        if 0 < e <= s.len() {
            lemma_shift_instructions(s, t, k, d, e);
        }
    }
    assert(instructions_from(t, 0) == instructions_from(s, 0));
}

/// A line that starts with `@ofborg` in any ASCII case yields the same
/// instructions as with the mention in lowercase: the mention of the bot
/// is case insensitive.
pub proof fn law_mention_is_case_insensitive(mention: Seq<char>, rest: Seq<char>)
    requires
        mention.len() == short_mention().len(),
        has_word_nocase_at(mention, 0, short_mention()),
    ensures
        spec_parse_line(mention + rest) == spec_parse_line(short_mention() + rest),
{
    let s = mention + rest;
    let t = short_mention() + rest;
    assert(agree_from(s, t, 7));
    assert(chars_eq_ignore_ascii_case(s[0int + 0], short_mention()[0]));
    assert(s[0] == '@');
    assert(t[0] == '@');
    assert(chars_eq_ignore_ascii_case(s[0int + 1], short_mention()[1]));
    assert(!chars_eq_ignore_ascii_case(s[0int + 1], long_mention()[1]));
    assert(!has_word_nocase_at(s, 0, long_mention()));
    assert(!has_word_nocase_at(t, 0, long_mention())) by {
        assert(!chars_eq_ignore_ascii_case(t[0int + 1], long_mention()[1]));
    }
    assert(has_word_nocase_at(s, 0, short_mention())) by {
        assert forall|m: int| 0 <= m < 7 implies chars_eq_ignore_ascii_case(
            #[trigger] s[0 + m],
            short_mention()[m],
        ) by {
            assert(s[0 + m] == mention[0 + m]);
        }
    }
    assert(has_word_nocase_at(t, 0, short_mention())) by {
        assert forall|m: int| 0 <= m < 7 implies chars_eq_ignore_ascii_case(
            #[trigger] t[0 + m],
            short_mention()[m],
        ) by {
            assert(t[0 + m] == short_mention()[m]);
        }
    }
    assert(skip_blanks(s, 0) == 0);
    assert(skip_blanks(t, 0) == 0);
    assert(mention_end(s, 0) == Some(7int));
    assert(mention_end(t, 0) == Some(7int));
    lemma_frame_skip_blanks(s, t, 7, 7);
    lemma_skip_blanks_bounds(s, 7);
    lemma_frame_command(s, t, 7, skip_blanks(s, 7));
    assert(step_at(s, 0) == step_at(t, 0));
    if let Some((ins, e)) = step_at(s, 0) {
        lemma_command_well_formed(s, skip_blanks(s, 7));
        if 0 < e <= s.len() {
            lemma_frame_instructions(s, t, 7, e);
        }
    }
}

// ---------------------------------------------------------------------
// The parser
// ---------------------------------------------------------------------

/// The value of an optional list of instructions.
pub open spec fn option_instructions_view(r: Option<Vec<Instruction>>) -> Option<
    Seq<SpecInstruction>,
> {
    match r {
        Some(v) => Some(instructions_view(v@)),
        None => None,
    }
}

/// A character that may be part of an attribute name.
pub fn is_not_whitespace(c: char) -> (r: bool)
    ensures
        r == !is_ascii_whitespace(c),
{
    !(c == ' ' || c == '\t' || c == '\n' || c == '\x0C' || c == '\r')
}

fn blanks_end(s: &Vec<char>, i: usize) -> (j: usize)
    requires
        i <= s.len(),
    ensures
        j == skip_blanks(s@, i as int),
        i <= j <= s.len(),
{
    let mut j = i;
    while j < s.len() && (s[j] == ' ' || s[j] == '\t' || s[j] == '\r' || s[j] == '\n')
        invariant
            i <= j <= s.len(),
            skip_blanks(s@, j as int) == skip_blanks(s@, i as int),
        decreases s.len() - j,
    {
        j = j + 1;
    }
    j
}

fn word_end_exec(s: &Vec<char>, i: usize) -> (j: usize)
    requires
        i <= s.len(),
    ensures
        j == word_end(s@, i as int),
        i <= j <= s.len(),
{
    let mut j = i;
    while j < s.len() && is_not_whitespace(s[j])
        invariant
            i <= j <= s.len(),
            word_end(s@, j as int) == word_end(s@, i as int),
        decreases s.len() - j,
    {
        j = j + 1;
    }
    j
}

fn has_word_exec(s: &Vec<char>, i: usize, p: &Vec<char>) -> (r: bool)
    requires
        i <= s.len(),
    ensures
        r == has_word_at(s@, i as int, p@),
{
    if p.len() > s.len() - i {
        return false;
    }
    let mut k: usize = 0;
    while k < p.len()
        invariant
            i + p.len() <= s.len(),
            k <= p.len(),
            forall|m: int| 0 <= m < k ==> s@[i + m] == p@[m],
        decreases p.len() - k,
    {
        if s[i + k] != p[k] {
            assert(s@.subrange(i as int, i + p.len())[k as int] != p@[k as int]);
            return false;
        }
        k = k + 1;
    }
    assert(s@.subrange(i as int, i + p.len()) =~= p@);
    true
}

fn has_word_nocase_exec(s: &Vec<char>, i: usize, p: &Vec<char>) -> (r: bool)
    requires
        i <= s.len(),
    ensures
        r == has_word_nocase_at(s@, i as int, p@),
{
    if p.len() > s.len() - i {
        return false;
    }
    let mut k: usize = 0;
    while k < p.len()
        invariant
            i + p.len() <= s.len(),
            k <= p.len(),
            forall|m: int| 0 <= m < k ==> chars_eq_ignore_ascii_case(#[trigger] s@[i + m], p@[m]),
        decreases p.len() - k,
    {
        if !char_eq_ignore_ascii_case(s[i + k], p[k]) {
            return false;
        }
        k = k + 1;
    }
    true
}

fn long_mention_exec() -> (v: Vec<char>)
    ensures
        v@ == long_mention(),
{
    vec!['@', 'g', 'r', 'a', 'h', 'a', 'm', 'c', 'o', 'f', 'b', 'o', 'r', 'g']
}

fn short_mention_exec() -> (v: Vec<char>)
    ensures
        v@ == short_mention(),
{
    vec!['@', 'o', 'f', 'b', 'o', 'r', 'g']
}

/// The word `s[j..e]` is the mention `tag`, up to ASCII case.
fn is_mention_word_exec(s: &Vec<char>, j: usize, e: usize, tag: &Vec<char>) -> (r: bool)
    requires
        j <= e <= s.len(),
    ensures
        r == is_mention_word(s@.subrange(j as int, e as int), tag@),
{
    let ghost w = s@.subrange(j as int, e as int);
    if e - j != tag.len() {
        return false;
    }
    let r = has_word_nocase_exec(s, j, tag);
    assert(r == has_word_nocase_at(w, 0, tag@)) by {
        assert forall|k: int| 0 <= k < tag@.len() implies #[trigger] w[k] == s@[j + k] by {}
        if r {
            assert forall|k: int| 0 <= k < tag@.len() implies chars_eq_ignore_ascii_case(
                #[trigger] w[0 + k],
                tag@[k],
            ) by {
                assert(chars_eq_ignore_ascii_case(s@[j + k], tag@[k]));
            }
        } else {
            if has_word_nocase_at(w, 0, tag@) {
                assert forall|k: int| 0 <= k < tag@.len() implies chars_eq_ignore_ascii_case(
                    #[trigger] s@[j + k],
                    tag@[k],
                ) by {
                    assert(chars_eq_ignore_ascii_case(w[0 + k], tag@[k]));
                }
            }
        }
    }
    r
}

/// The word `s[j..e]` mentions the bot.
fn is_mention_exec(s: &Vec<char>, j: usize, e: usize) -> (r: bool)
    requires
        j <= e <= s.len(),
    ensures
        r == is_mention(s@.subrange(j as int, e as int)),
{
    let long = long_mention_exec();
    if is_mention_word_exec(s, j, e, &long) {
        return true;
    }
    let short = short_mention_exec();
    is_mention_word_exec(s, j, e, &short)
}

/// The attribute names that follow position `i`.
fn attrs_exec(s: &Vec<char>, i: usize) -> (r: (Vec<String>, usize))
    requires
        i <= s.len(),
    ensures
        strings_view(r.0@) == attrs_from(s@, i as int).0,
        r.1 == attrs_from(s@, i as int).1,
        r.1 <= s.len(),
{
    let mut acc: Vec<String> = Vec::new();
    let mut k = i;
    loop
        invariant
            i <= k <= s.len(),
            strings_view(acc@) + attrs_from(s@, k as int).0 == attrs_from(s@, i as int).0,
            attrs_from(s@, k as int).1 == attrs_from(s@, i as int).1,
        decreases s.len() - k,
    {
        let j = blanks_end(s, k);
        if j < s.len() && is_not_whitespace(s[j]) {
            let e = word_end_exec(s, j);
            proof {
                lemma_word_end_bounds(s@, j as int);
            }
            if !is_mention_exec(s, j, e) {
                let word = copy_range(s, j, e);
                let name = string_from_chars(word.as_slice());
                let ghost before = strings_view(acc@);
                acc.push(name);
                assert(strings_view(acc@) =~= before.push(s@.subrange(j as int, e as int)));
                assert(attrs_from(s@, k as int).0 =~= seq![s@.subrange(j as int, e as int)]
                    + attrs_from(s@, e as int).0);
                assert(strings_view(acc@) + attrs_from(s@, e as int).0 =~= before
                    + attrs_from(s@, k as int).0);
                k = e;
                continue ;
            }
        }
        assert(attrs_from(s@, k as int).0 =~= seq![]);
        assert(strings_view(acc@) + seq![] =~= strings_view(acc@));
        return (acc, k);
    }
}

/// Prefixes each attribute with `nixosTests.`.
fn nixos_tests(attrs: Vec<String>) -> (r: Vec<String>)
    ensures
        strings_view(r@) == strings_view(attrs@).map_values(|t: Seq<char>| nixos_tests_prefix() + t),
{
    let mut r: Vec<String> = Vec::new();
    let mut k: usize = 0;
    while k < attrs.len()
        invariant
            k <= attrs.len(),
            strings_view(r@) == strings_view(attrs@).take(k as int).map_values(
                |t: Seq<char>| nixos_tests_prefix() + t,
            ),
        decreases attrs.len() - k,
    {
        let mut name: Vec<char> = vec!['n', 'i', 'x', 'o', 's', 'T', 'e', 's', 't', 's', '.'];
        let word = chars_of(attrs[k].as_str());
        let mut m: usize = 0;
        while m < word.len()
            invariant
                m <= word.len(),
                name@ == nixos_tests_prefix() + word@.take(m as int),
            decreases word.len() - m,
        {
            name.push(word[m]);
            m = m + 1;
        }
        assert(word@.take(m as int) =~= word@);
        let ghost before = strings_view(r@);
        r.push(string_from_chars(name.as_slice()));
        assert(strings_view(r@) =~= before.push(nixos_tests_prefix() + attrs@[k as int]@));
        assert(strings_view(attrs@).take(k + 1) =~= strings_view(attrs@).take(k as int).push(
            attrs@[k as int]@,
        ));
        assert(strings_view(r@) =~= strings_view(attrs@).take(k + 1).map_values(
            |t: Seq<char>| nixos_tests_prefix() + t,
        ));
        k = k + 1;
    }
    assert(strings_view(attrs@).take(k as int) =~= strings_view(attrs@));
    r
}

/// The command at position `i`.
fn command_exec(s: &Vec<char>, i: usize) -> (r: Option<(Instruction, usize)>)
    requires
        i <= s.len(),
    ensures
        match command_at(s@, i as int) {
            Some((ins, e)) => r matches Some((x, f)) && x@ == ins && f == e,
            None => r is None,
        },
{
    let j = blanks_end(s, i);
    let build = vec!['b', 'u', 'i', 'l', 'd'];
    if has_word_exec(s, j, &build) {
        let k = j + 5;
        let after = blanks_end(s, k);
        if after > k {
            let (attrs, e) = attrs_exec(s, k);
            if attrs.len() > 0 {
                return Some((Instruction::Build(Subset::Nixpkgs, attrs), e));
            }
        }
    }
    let test = vec!['t', 'e', 's', 't'];
    if has_word_exec(s, j, &test) {
        let k = j + 4;
        let after = blanks_end(s, k);
        if after > k {
            let (attrs, e) = attrs_exec(s, k);
            if attrs.len() > 0 {
                return Some((Instruction::Build(Subset::Nixpkgs, nixos_tests(attrs)), e));
            }
        }
    }
    let eval = vec!['e', 'v', 'a', 'l'];
    if has_word_exec(s, j, &eval) {
        return Some((Instruction::Eval, j + 4));
    }
    None
}

/// The mention/command pair that starts (after blanks) at `i`.
fn step_exec(s: &Vec<char>, i: usize) -> (r: Option<(Instruction, usize)>)
    requires
        i <= s.len(),
    ensures
        match step_at(s@, i as int) {
            Some((ins, e)) => r matches Some((x, f)) && x@ == ins && f == e,
            None => r is None,
        },
{
    let j = blanks_end(s, i);
    let long = long_mention_exec();
    let short = short_mention_exec();
    let t = if has_word_nocase_exec(s, j, &long) {
        j + 14
    } else if has_word_nocase_exec(s, j, &short) {
        j + 7
    } else {
        return None;
    };
    let after = blanks_end(s, t);
    if after > t {
        command_exec(s, after)
    } else {
        None
    }
}

/// The instructions of one line given as characters.
fn line_exec(s: &Vec<char>) -> (r: Vec<Instruction>)
    ensures
        instructions_view(r@) == line_instructions(s@),
{
    let mut acc: Vec<Instruction> = Vec::new();
    let mut k: usize = 0;
    loop
        invariant
            k <= s.len(),
            instructions_view(acc@) + instructions_from(s@, k as int) == instructions_from(s@, 0),
        decreases s.len() - k,
    {
        match step_exec(s, k) {
            Some((ins, e)) => {
                if k < e && e <= s.len() {
                    let ghost before = instructions_view(acc@);
                    let ghost v = ins@;
                    acc.push(ins);
                    assert(instructions_view(acc@) =~= before.push(v));
                    assert(instructions_view(acc@) + instructions_from(s@, e as int) =~= before
                        + instructions_from(s@, k as int));
                    k = e;
                    continue ;
                }
            },
            None => {},
        }
        assert(instructions_from(s@, k as int) =~= seq![]);
        assert(instructions_view(acc@) + seq![] =~= instructions_view(acc@));
        return acc;
    }
}

/// Parses one line of a comment: the instructions it holds, or `None` when
/// it holds no command.
pub fn parse_line(text: &str) -> (r: Option<Vec<Instruction>>)
    ensures
        option_instructions_view(r) == spec_parse_line(text@),
{
    let s = chars_of(text);
    let v = line_exec(&s);
    if v.len() == 0 {
        None
    } else {
        Some(v)
    }
}

/// Parses a whole comment: the instructions of all its lines, in order, or
/// `None` when it holds no command.
pub fn parse(text: &str) -> (r: Option<Vec<Instruction>>)
    ensures
        option_instructions_view(r) == spec_parse(text@),
{
    let s = chars_of(text);
    let lines = split_lines(&s);
    let ghost ls = lines@.map_values(|l: Vec<char>| l@);
    let mut all: Vec<Instruction> = Vec::new();
    let mut k: usize = 0;
    assert(ls.skip(0) =~= ls);
    assert(instructions_view(all@) + instructions_of_lines(ls) =~= instructions_of_lines(ls));
    while k < lines.len()
        invariant
            k <= lines.len(),
            ls == lines@.map_values(|l: Vec<char>| l@),
            ls == lines_of(s@),
            instructions_view(all@) + instructions_of_lines(ls.skip(k as int))
                == instructions_of_lines(ls),
        decreases lines.len() - k,
    {
        let mut v = line_exec(&lines[k]);
        let ghost before = instructions_view(all@);
        let ghost line_view = instructions_view(v@);
        let ghost all_old = all@;
        let ghost v_old = v@;
        all.append(&mut v);
        assert(all@ == all_old + v_old);
        assert(instructions_view(all@) =~= before + line_view);
        assert(ls.skip(k as int) =~= seq![ls[k as int]] + ls.skip(k + 1));
        assert(ls.skip(k as int).drop_first() =~= ls.skip(k + 1));
        assert(instructions_of_lines(ls.skip(k as int)) == line_instructions(ls[k as int])
            + instructions_of_lines(ls.skip(k + 1)));
        assert(instructions_view(all@) + instructions_of_lines(ls.skip(k + 1)) =~= before
            + instructions_of_lines(ls.skip(k as int)));
        k = k + 1;
    }
    assert(ls.skip(k as int) =~= seq![]);
    assert(instructions_view(all@) + seq![] =~= instructions_view(all@));
    if all.len() == 0 {
        None
    } else {
        Some(all)
    }
}

} // verus!
