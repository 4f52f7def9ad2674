use ofborg::commentparser::{parse, parse_line, Instruction, Subset};

#[test]
fn parse_empty() {
    assert_eq!(None, parse(""));
}

#[test]
fn valid_trailing_instruction() {
    assert_eq!(
        Some(vec![Instruction::Eval]),
        parse(
            "/cc @grahamc for ^^
@GrahamcOfBorg eval",
        )
    );
}

#[test]
fn bogus_comment() {
    assert_eq!(None, parse(":) :) :) @grahamcofborg build hi"));
}

#[test]
fn bogus_build_comment_empty_list() {
    assert_eq!(None, parse("@grahamcofborg build"));
}

#[test]
fn eval_comment() {
    assert_eq!(Some(vec![Instruction::Eval]), parse("@grahamcofborg eval"));
}

#[test]
fn eval_and_build_comment() {
    assert_eq!(
        Some(vec![
            Instruction::Eval,
            Instruction::Build(Subset::Nixpkgs, vec![String::from("foo")]),
        ]),
        parse("@grahamcofborg eval @grahamcofborg build foo")
    );
}

#[test]
fn build_and_eval_and_build_comment() {
    assert_eq!(
        Some(vec![
            Instruction::Build(Subset::Nixpkgs, vec![String::from("bar")]),
            Instruction::Eval,
            Instruction::Build(Subset::Nixpkgs, vec![String::from("foo")]),
        ]),
        parse(
            "
@grahamcofborg build bar
@ofborg eval
@grahamcofborg build foo",
        )
    );
}

#[test]
fn complex_comment_with_paragraphs() {
    assert_eq!(
        Some(vec![
            Instruction::Build(Subset::Nixpkgs, vec![String::from("bar")]),
            Instruction::Eval,
            Instruction::Build(Subset::Nixpkgs, vec![String::from("foo")]),
        ]),
        parse(
            "
I like where you're going with this PR, so let's try it out!

@grahamcofborg build bar

I noticed though that the target branch was broken, which should be fixed. Let's eval again.

@grahamcofborg eval

Also, just in case, let's try foo
@grahamcofborg build foo",
        )
    );
}

#[test]
fn build_and_eval_comment() {
    assert_eq!(
        Some(vec![
            Instruction::Build(Subset::Nixpkgs, vec![String::from("foo")]),
            Instruction::Eval,
        ]),
        parse("@grahamcofborg build foo @grahamcofborg eval")
    );
}

#[test]
fn build_comment() {
    assert_eq!(
        Some(vec![Instruction::Build(
            Subset::Nixpkgs,
            vec![String::from("foo"), String::from("bar")]
        ),]),
        parse(
            "@OfBorg build foo bar

baz",
        )
    );
}

#[test]
fn test_comment() {
    assert_eq!(
        Some(vec![Instruction::Build(
            Subset::Nixpkgs,
            vec![
                String::from("nixosTests.foo"),
                String::from("nixosTests.bar"),
                String::from("nixosTests.baz"),
            ]
        ),]),
        parse("@GrahamCOfBorg test foo bar baz")
    );
}

#[test]
fn build_comment_newlines() {
    assert_eq!(
        Some(vec![Instruction::Build(
            Subset::Nixpkgs,
            vec![
                String::from("foo"),
                String::from("bar"),
                String::from("baz"),
            ]
        ),]),
        parse("@OfBorg build foo bar baz")
    );
}

#[test]
fn build_comment_lower() {
    assert_eq!(
        Some(vec![Instruction::Build(
            Subset::Nixpkgs,
            vec![
                String::from("foo"),
                String::from("bar"),
                String::from("baz"),
            ]
        ),]),
        parse("@grahamcofborg build foo bar baz")
    );
}

#[test]
fn build_comment_lower_package_case_retained() {
    assert_eq!(
        Some(vec![Instruction::Build(
            Subset::Nixpkgs,
            vec![
                String::from("foo"),
                String::from("bar"),
                String::from("baz.Baz"),
            ]
        ),]),
        parse("@ofborg build foo bar baz.Baz")
    );
}

#[test]
fn parse_line_single_command() {
    assert_eq!(Some(vec![Instruction::Eval]), parse_line("  @OFBORG eval"));
}

#[test]
fn several_commands_on_one_line() {
    assert_eq!(
        Some(vec![
            Instruction::Build(
                Subset::Nixpkgs,
                vec![String::from("list"), String::from("of"), String::from("attrs")]
            ),
            Instruction::Eval,
        ]),
        parse("@ofborg build list of attrs @ofborg eval")
    );
}

#[test]
fn either_mention_ends_an_attribute_list() {
    assert_eq!(
        Some(vec![
            Instruction::Build(Subset::Nixpkgs, vec![String::from("foo")]),
            Instruction::Eval,
            Instruction::Build(Subset::Nixpkgs, vec![String::from("nixosTests.bar")]),
        ]),
        parse("@grahamcofborg build foo @OfBorg eval @GRAHAMCOFBORG test bar")
    );
}

#[test]
fn mention_prefix_stays_an_attribute_name() {
    assert_eq!(
        Some(vec![Instruction::Build(
            Subset::Nixpkgs,
            vec![String::from("foo"), String::from("@ofborgs")]
        )]),
        parse("@ofborg build foo @ofborgs")
    );
}

#[test]
fn build_without_space_is_ignored() {
    assert_eq!(None, parse("@ofborg buildfoo"));
}

#[test]
fn eval_prefix_is_accepted() {
    assert_eq!(Some(vec![Instruction::Eval]), parse("@ofborg evaluate"));
}

#[test]
fn crlf_lines_are_split() {
    assert_eq!(
        Some(vec![
            Instruction::Build(Subset::Nixpkgs, vec![String::from("foo")]),
            Instruction::Eval,
        ]),
        parse("@ofborg build foo\r\n@ofborg eval\r\n")
    );
}

#[test]
fn mention_without_command_is_ignored() {
    assert_eq!(None, parse("@ofborg please build this"));
}

#[test]
fn mention_case_does_not_matter() {
    assert_eq!(
        parse_line("@OFBORG build foo bar"),
        parse_line("@ofborg build foo bar")
    );
    assert_eq!(parse_line("@OfBoRg eval"), Some(vec![Instruction::Eval]));
}

#[test]
fn a_line_not_opened_by_a_mention_yields_nothing() {
    assert_eq!(parse_line("build foo @ofborg eval"), None);
    assert_eq!(parse_line("   "), None);
    assert_eq!(parse_line("@ofborg"), None);
    assert_eq!(parse_line("\t@GrahamCOfBorg test foo"), Some(vec![Instruction::Build(
        Subset::Nixpkgs,
        vec![String::from("nixosTests.foo")]
    )]));
}
