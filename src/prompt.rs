//! Decisions on what the user typed: yes/no answers, non-empty answers, the
//! date of a quote, and the steps of writing a quote in an external editor.
use vstd::prelude::*;
use crate::backup::{date_stamp, local_time_text, DATE_STAMP};
use crate::text::{normalize, normalized, same_text, trim, trimmed};

verus! {

/// An answer to a yes/no question.
#[derive(PartialEq, Eq, Structural, Clone, Copy, Debug)]
pub enum YesOrNo {
    Yes,
    No,
}

/// The answer that a trimmed, lower-cased line gives: `y`/`yes`, `n`/`no`,
/// and `default` for anything else.
pub open spec fn answer_of(lowered: Seq<char>, default: YesOrNo) -> YesOrNo {
    if lowered == "y"@ || lowered == "yes"@ {
        YesOrNo::Yes
    } else if lowered == "n"@ || lowered == "no"@ {
        YesOrNo::No
    } else {
        default
    }
}

/// The answer given by a line that is already trimmed and lower-cased.
pub fn yes_or_no_of(lowered: &str, default: YesOrNo) -> (r: YesOrNo)
    ensures
        r == answer_of(lowered@, default),
{
    if same_text(lowered, "y") || same_text(lowered, "yes") {
        YesOrNo::Yes
    } else if same_text(lowered, "n") || same_text(lowered, "no") {
        YesOrNo::No
    } else {
        default
    }
}

/// The answer given by the line the user typed, compared without surrounding
/// whitespace and without regard to case.
pub fn prompt_yes_or_no(line: &str, default: YesOrNo) -> (r: YesOrNo)
    ensures
        r == answer_of(normalized(line@), default),
{
    let lowered = normalize(line);
    yes_or_no_of(lowered.as_str(), default)
}

/// The line the user typed, trimmed, or `None` where nothing is left and the
/// question is to be asked again.
pub fn prompt_user(line: &str) -> (r: Option<String>)
    ensures
        match r {
            Some(s) => s@ == trimmed(line@) && s@.len() > 0,
            None => trimmed(line@).len() == 0,
        },
{
    let answer = trim(line);
    if answer.as_str().is_empty() {
        None
    } else {
        Some(answer)
    }
}

/// The author typed by the user, or `None` where the line was blank.
pub fn get_author(line: &str) -> (r: Option<String>)
    ensures
        match r {
            Some(s) => s@ == trimmed(line@) && s@.len() > 0,
            None => trimmed(line@).len() == 0,
        },
{
    prompt_user(line)
}

/// The quote typed by the user on the standard input, or `None` where the
/// line was blank.
pub fn get_quote_stdin(line: &str) -> (r: Option<String>)
    ensures
        match r {
            Some(s) => s@ == trimmed(line@) && s@.len() > 0,
            None => trimmed(line@).len() == 0,
        },
{
    prompt_user(line)
}

/// The date of a quote: the one the user gave, or else the current local
/// time as day-month-year and hours:minutes:seconds.
pub fn get_date(custom: Option<String>) -> (r: String)
    ensures
        match custom {
            Some(d) => r@ == d@,
            None => date_stamp(r@, ' '),
        },
{
    match custom {
        Some(d) => d,
        None => local_time_text(DATE_STAMP),
    }
}

/// What happens next while a quote is written in an external editor.
pub enum EditorStep {
    /// The editor left this (trimmed, non-empty) quote.
    Accept(String),
    /// The quote is blank: ask whether to write it again.
    AskRetry,
    /// Open the editor again.
    Relaunch,
    /// Give up without saving anything.
    Abort,
    /// The editor failed.
    Fail,
}

/// An `EditorStep` as the contracts see it.
pub enum StepView {
    Accept(Seq<char>),
    AskRetry,
    Relaunch,
    Abort,
    Fail,
}

impl View for EditorStep {
    type V = StepView;

    open spec fn view(&self) -> StepView {
        match self {
            EditorStep::Accept(s) => StepView::Accept(s@),
            EditorStep::AskRetry => StepView::AskRetry,
            EditorStep::Relaunch => StepView::Relaunch,
            EditorStep::Abort => StepView::Abort,
            EditorStep::Fail => StepView::Fail,
        }
    }
}

/// The step after the editor exited, with `contents` left in its file.
pub open spec fn after_exit(success: bool, contents: Seq<char>) -> StepView {
    if !success {
        StepView::Fail
    } else if trimmed(contents).len() == 0 {
        StepView::AskRetry
    } else {
        StepView::Accept(trimmed(contents))
    }
}

/// The step after the user answered whether to write a blank quote again
/// (the answer is yes unless it says no).
pub open spec fn after_blank(line: Seq<char>) -> StepView {
    if answer_of(normalized(line), YesOrNo::Yes) == YesOrNo::Yes {
        StepView::Relaunch
    } else {
        StepView::Abort
    }
}

/// Decides on what the editor left behind.
pub fn editor_result(success: bool, contents: &str) -> (r: EditorStep)
    ensures
        r@ == after_exit(success, contents@),
{
    if !success {
        return EditorStep::Fail;
    }
    let quote = trim(contents);
    if quote.as_str().is_empty() {
        EditorStep::AskRetry
    } else {
        EditorStep::Accept(quote)
    }
}

/// Decides on the answer to the question whether to write a blank quote again.
pub fn retry_choice(line: &str) -> (r: EditorStep)
    ensures
        r@ == after_blank(line@),
{
    match prompt_yes_or_no(line, YesOrNo::Yes) {
        YesOrNo::Yes => EditorStep::Relaunch,
        YesOrNo::No => EditorStep::Abort,
    }
}

/// A blank quote from the editor, followed by a refusal to write it again,
/// ends the run without a quote to save.
pub proof fn lemma_blank_quote_declined(contents: Seq<char>, line: Seq<char>)
    requires
        trimmed(contents).len() == 0,
        normalized(line) == "n"@ || normalized(line) == "no"@,
    ensures
        after_exit(true, contents) == StepView::AskRetry,
        after_blank(line) == StepView::Abort,
{
    reveal_strlit("y");
    reveal_strlit("yes");
    reveal_strlit("n");
    reveal_strlit("no");
    assert("n"@[0] != "y"@[0]);
    assert("no"@.len() != "y"@.len());
    assert("n"@.len() != "yes"@.len());
    assert("no"@[0] != "yes"@[0]);
}

} // verus!
