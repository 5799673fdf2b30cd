//! Hook results, stop reasons and tool failures on the wire, part by part.

use vstd::prelude::*;
use crate::hook::{FailureView, HookResult, HookView, StopReason, StopView, ToolFailure};
use crate::json::{value_tree, Entries, Numeral, Tree};
use crate::wire::Wire;

verus! {

/// The names differ from one another.
proof fn lemma_hook_result_names()
    ensures
        "kind"@.len() == 4,
        "updated_input"@.len() == 13,
        "reason"@.len() == 6,
        "continue"@.len() == 8,
        "skip"@.len() == 4,
        "abort"@.len() == 5,
{
    reveal_strlit("kind");
    reveal_strlit("updated_input");
    reveal_strlit("reason");
    reveal_strlit("continue");
    reveal_strlit("skip");
    reveal_strlit("abort");
}

/// A hook result is read from an object exactly where its tag names its variant and each of its
/// parts is what the member of that name holds. No other member matters.
pub proof fn hook_result_read_from_object(e: Entries, nested: bool, v: HookView)
    ensures
        HookResult::decoded(Tree::Record(e), nested) == Some(v) <==> match v {
            HookView::Continue { updated_input } => {
                &&& e.contains_key("kind"@)
                &&& e["kind"@] == Tree::Text("continue"@) || nested && e["kind"@]
                    == Tree::Number(Numeral::Natural(0))
                &&& match updated_input {
                    Some(given) => {
                        &&& e.contains_key("updated_input"@)
                        &&& e["updated_input"@] == given
                        &&& given != Tree::Null
                    },
                    None => e.contains_key("updated_input"@) ==> e["updated_input"@] == Tree::Null,
                }
            },
            HookView::Skip { reason } => {
                &&& e.contains_key("kind"@)
                &&& e["kind"@] == Tree::Text("skip"@) || nested && e["kind"@]
                    == Tree::Number(Numeral::Natural(1))
                &&& e.contains_key("reason"@) && e["reason"@] == Tree::Text(reason)
            },
            HookView::Abort { reason } => {
                &&& e.contains_key("kind"@)
                &&& e["kind"@] == Tree::Text("abort"@) || nested && e["kind"@]
                    == Tree::Number(Numeral::Natural(2))
                &&& e.contains_key("reason"@) && e["reason"@] == Tree::Text(reason)
            },
        },
{
    lemma_hook_result_names();
}

/// A hook result is read from an array exactly where its tag and its parts stand there in the
/// order of their declaration and nothing else does.
pub proof fn hook_result_read_from_array(s: Seq<Tree>, nested: bool, v: HookView)
    ensures
        HookResult::decoded(Tree::List(s), nested) == Some(v) <==> match v {
            HookView::Continue { updated_input } => {
                &&& s.len() > 0
                &&& s[0] == Tree::Text("continue"@) || nested && s[0]
                    == Tree::Number(Numeral::Natural(0))
                &&& 1 <= s.len() <= 2
                &&& match updated_input {
                    Some(given) => {
                        &&& s.len() > 1
                        &&& s[1] == given
                        &&& given != Tree::Null
                    },
                    None => s.len() > 1 ==> s[1] == Tree::Null,
                }
            },
            HookView::Skip { reason } => {
                &&& s.len() > 0
                &&& s[0] == Tree::Text("skip"@) || nested && s[0]
                    == Tree::Number(Numeral::Natural(1))
                &&& 2 <= s.len() <= 2
                &&& s.len() > 1 && s[1] == Tree::Text(reason)
            },
            HookView::Abort { reason } => {
                &&& s.len() > 0
                &&& s[0] == Tree::Text("abort"@) || nested && s[0]
                    == Tree::Number(Numeral::Natural(2))
                &&& 2 <= s.len() <= 2
                &&& s.len() > 1 && s[1] == Tree::Text(reason)
            },
        },
{
    lemma_hook_result_names();
}

/// A hook result is read from nothing but objects and arrays.
pub proof fn hook_result_read_from_nothing_else(t: Tree, nested: bool)
    requires
        !(t is Record),
        !(t is List),
    ensures
        HookResult::decoded(t, nested) is None,
{
}

/// A hook result is written as an object with its tag, whose other members hold its
/// parts, each under its name.
pub proof fn hook_result_written(v: HookView)
    ensures
        HookResult::encoded(v) is Record,
        ({
            let e = HookResult::encoded(v)->Record_0;
            match v {
                HookView::Continue { updated_input } => {
                    &&& forall|k: Seq<char>| #[trigger]
                        e.contains_key(k) <==> {
                            ||| k == "kind"@
                            ||| k == "updated_input"@ && updated_input is Some
                        }
                    &&& e["kind"@] == Tree::Text("continue"@)
                    &&& updated_input matches Some(given) ==> e["updated_input"@] == given
                },
                HookView::Skip { reason } => {
                    &&& forall|k: Seq<char>| #[trigger]
                        e.contains_key(k) <==> {
                            ||| k == "kind"@
                            ||| k == "reason"@
                        }
                    &&& e["kind"@] == Tree::Text("skip"@)
                    &&& e["reason"@] == Tree::Text(reason)
                },
                HookView::Abort { reason } => {
                    &&& forall|k: Seq<char>| #[trigger]
                        e.contains_key(k) <==> {
                            ||| k == "kind"@
                            ||| k == "reason"@
                        }
                    &&& e["kind"@] == Tree::Text("abort"@)
                    &&& e["reason"@] == Tree::Text(reason)
                },
            }
        }),
{
    lemma_hook_result_names();
}

/// The names differ from one another.
proof fn lemma_stop_reason_names()
    ensures
        "kind"@.len() == 4,
        "reason"@.len() == 6,
        "message"@.len() == 7,
        "completed"@.len() == 9,
        "user_cancelled"@.len() == 14,
        "aborted_by_hook"@.len() == 15,
        "budget_exhausted"@.len() == 16,
        "error"@.len() == 5,
{
    reveal_strlit("kind");
    reveal_strlit("reason");
    reveal_strlit("message");
    reveal_strlit("completed");
    reveal_strlit("user_cancelled");
    reveal_strlit("aborted_by_hook");
    reveal_strlit("budget_exhausted");
    reveal_strlit("error");
}

/// A stop reason is read from an object exactly where its tag names its variant and each of its
/// parts is what the member of that name holds. No other member matters.
pub proof fn stop_reason_read_from_object(e: Entries, nested: bool, v: StopView)
    ensures
        StopReason::decoded(Tree::Record(e), nested) == Some(v) <==> match v {
            StopView::Completed => {
                &&& e.contains_key("kind"@)
                &&& e["kind"@] == Tree::Text("completed"@) || nested && e["kind"@]
                    == Tree::Number(Numeral::Natural(0))
            },
            StopView::UserCancelled => {
                &&& e.contains_key("kind"@)
                &&& e["kind"@] == Tree::Text("user_cancelled"@) || nested && e["kind"@]
                    == Tree::Number(Numeral::Natural(1))
            },
            StopView::AbortedByHook { reason } => {
                &&& e.contains_key("kind"@)
                &&& e["kind"@] == Tree::Text("aborted_by_hook"@) || nested && e["kind"@]
                    == Tree::Number(Numeral::Natural(2))
                &&& e.contains_key("reason"@) && e["reason"@] == Tree::Text(reason)
            },
            StopView::BudgetExhausted => {
                &&& e.contains_key("kind"@)
                &&& e["kind"@] == Tree::Text("budget_exhausted"@) || nested && e["kind"@]
                    == Tree::Number(Numeral::Natural(3))
            },
            StopView::Error { message } => {
                &&& e.contains_key("kind"@)
                &&& e["kind"@] == Tree::Text("error"@) || nested && e["kind"@]
                    == Tree::Number(Numeral::Natural(4))
                &&& e.contains_key("message"@) && e["message"@] == Tree::Text(message)
            },
        },
{
    lemma_stop_reason_names();
}

/// A stop reason is read from an array exactly where its tag and its parts stand there in the
/// order of their declaration and nothing else does.
pub proof fn stop_reason_read_from_array(s: Seq<Tree>, nested: bool, v: StopView)
    ensures
        StopReason::decoded(Tree::List(s), nested) == Some(v) <==> match v {
            StopView::Completed => {
                &&& s.len() > 0
                &&& s[0] == Tree::Text("completed"@) || nested && s[0]
                    == Tree::Number(Numeral::Natural(0))
                &&& 1 <= s.len() <= 1
            },
            StopView::UserCancelled => {
                &&& s.len() > 0
                &&& s[0] == Tree::Text("user_cancelled"@) || nested && s[0]
                    == Tree::Number(Numeral::Natural(1))
                &&& 1 <= s.len() <= 1
            },
            StopView::AbortedByHook { reason } => {
                &&& s.len() > 0
                &&& s[0] == Tree::Text("aborted_by_hook"@) || nested && s[0]
                    == Tree::Number(Numeral::Natural(2))
                &&& 2 <= s.len() <= 2
                &&& s.len() > 1 && s[1] == Tree::Text(reason)
            },
            StopView::BudgetExhausted => {
                &&& s.len() > 0
                &&& s[0] == Tree::Text("budget_exhausted"@) || nested && s[0]
                    == Tree::Number(Numeral::Natural(3))
                &&& 1 <= s.len() <= 1
            },
            StopView::Error { message } => {
                &&& s.len() > 0
                &&& s[0] == Tree::Text("error"@) || nested && s[0]
                    == Tree::Number(Numeral::Natural(4))
                &&& 2 <= s.len() <= 2
                &&& s.len() > 1 && s[1] == Tree::Text(message)
            },
        },
{
    lemma_stop_reason_names();
}

/// A stop reason is read from nothing but objects and arrays.
pub proof fn stop_reason_read_from_nothing_else(t: Tree, nested: bool)
    requires
        !(t is Record),
        !(t is List),
    ensures
        StopReason::decoded(t, nested) is None,
{
}

/// A stop reason is written as an object with its tag, whose other members hold its
/// parts, each under its name.
pub proof fn stop_reason_written(v: StopView)
    ensures
        StopReason::encoded(v) is Record,
        ({
            let e = StopReason::encoded(v)->Record_0;
            match v {
                StopView::Completed => {
                    &&& forall|k: Seq<char>| #[trigger] e.contains_key(k) <==> (k == "kind"@)
                    &&& e["kind"@] == Tree::Text("completed"@)
                },
                StopView::UserCancelled => {
                    &&& forall|k: Seq<char>| #[trigger] e.contains_key(k) <==> (k == "kind"@)
                    &&& e["kind"@] == Tree::Text("user_cancelled"@)
                },
                StopView::AbortedByHook { reason } => {
                    &&& forall|k: Seq<char>| #[trigger]
                        e.contains_key(k) <==> {
                            ||| k == "kind"@
                            ||| k == "reason"@
                        }
                    &&& e["kind"@] == Tree::Text("aborted_by_hook"@)
                    &&& e["reason"@] == Tree::Text(reason)
                },
                StopView::BudgetExhausted => {
                    &&& forall|k: Seq<char>| #[trigger] e.contains_key(k) <==> (k == "kind"@)
                    &&& e["kind"@] == Tree::Text("budget_exhausted"@)
                },
                StopView::Error { message } => {
                    &&& forall|k: Seq<char>| #[trigger]
                        e.contains_key(k) <==> {
                            ||| k == "kind"@
                            ||| k == "message"@
                        }
                    &&& e["kind"@] == Tree::Text("error"@)
                    &&& e["message"@] == Tree::Text(message)
                },
            }
        }),
{
    lemma_stop_reason_names();
}

/// The names differ from one another.
proof fn lemma_failure_names()
    ensures
        "kind"@.len() == 4,
        "message"@.len() == 7,
        "error"@.len() == 5,
        "cancelled"@.len() == 9,
        "timeout"@.len() == 7,
{
    reveal_strlit("kind");
    reveal_strlit("message");
    reveal_strlit("error");
    reveal_strlit("cancelled");
    reveal_strlit("timeout");
}

/// A tool failure is read from an object exactly where its tag names its variant and each of its
/// parts is what the member of that name holds. No other member matters.
pub proof fn failure_read_from_object(e: Entries, nested: bool, v: FailureView)
    ensures
        ToolFailure::decoded(Tree::Record(e), nested) == Some(v) <==> match v {
            FailureView::Error { message } => {
                &&& e.contains_key("kind"@)
                &&& e["kind"@] == Tree::Text("error"@) || nested && e["kind"@]
                    == Tree::Number(Numeral::Natural(0))
                &&& e.contains_key("message"@) && e["message"@] == Tree::Text(message)
            },
            FailureView::Cancelled => {
                &&& e.contains_key("kind"@)
                &&& e["kind"@] == Tree::Text("cancelled"@) || nested && e["kind"@]
                    == Tree::Number(Numeral::Natural(1))
            },
            FailureView::Timeout => {
                &&& e.contains_key("kind"@)
                &&& e["kind"@] == Tree::Text("timeout"@) || nested && e["kind"@]
                    == Tree::Number(Numeral::Natural(2))
            },
        },
{
    lemma_failure_names();
}

/// A tool failure is read from an array exactly where its tag and its parts stand there in the
/// order of their declaration and nothing else does.
pub proof fn failure_read_from_array(s: Seq<Tree>, nested: bool, v: FailureView)
    ensures
        ToolFailure::decoded(Tree::List(s), nested) == Some(v) <==> match v {
            FailureView::Error { message } => {
                &&& s.len() > 0
                &&& s[0] == Tree::Text("error"@) || nested && s[0]
                    == Tree::Number(Numeral::Natural(0))
                &&& 2 <= s.len() <= 2
                &&& s.len() > 1 && s[1] == Tree::Text(message)
            },
            FailureView::Cancelled => {
                &&& s.len() > 0
                &&& s[0] == Tree::Text("cancelled"@) || nested && s[0]
                    == Tree::Number(Numeral::Natural(1))
                &&& 1 <= s.len() <= 1
            },
            FailureView::Timeout => {
                &&& s.len() > 0
                &&& s[0] == Tree::Text("timeout"@) || nested && s[0]
                    == Tree::Number(Numeral::Natural(2))
                &&& 1 <= s.len() <= 1
            },
        },
{
    lemma_failure_names();
}

/// A tool failure is read from nothing but objects and arrays.
pub proof fn failure_read_from_nothing_else(t: Tree, nested: bool)
    requires
        !(t is Record),
        !(t is List),
    ensures
        ToolFailure::decoded(t, nested) is None,
{
}

/// A tool failure is written as an object with its tag, whose other members hold its
/// parts, each under its name.
pub proof fn failure_written(v: FailureView)
    ensures
        ToolFailure::encoded(v) is Record,
        ({
            let e = ToolFailure::encoded(v)->Record_0;
            match v {
                FailureView::Error { message } => {
                    &&& forall|k: Seq<char>| #[trigger]
                        e.contains_key(k) <==> {
                            ||| k == "kind"@
                            ||| k == "message"@
                        }
                    &&& e["kind"@] == Tree::Text("error"@)
                    &&& e["message"@] == Tree::Text(message)
                },
                FailureView::Cancelled => {
                    &&& forall|k: Seq<char>| #[trigger] e.contains_key(k) <==> (k == "kind"@)
                    &&& e["kind"@] == Tree::Text("cancelled"@)
                },
                FailureView::Timeout => {
                    &&& forall|k: Seq<char>| #[trigger] e.contains_key(k) <==> (k == "kind"@)
                    &&& e["kind"@] == Tree::Text("timeout"@)
                },
            }
        }),
{
    lemma_failure_names();
}

/// The views of hook results, stop reasons and failures hold their parts.
pub proof fn hook_says(text: String, input: serde_json::Value)
    ensures
        (HookResult::Continue { updated_input: None })@ == (HookView::Continue {
            updated_input: None,
        }),
        (HookResult::Continue { updated_input: Some(input) })@ == (HookView::Continue {
            updated_input: Some(value_tree(input)),
        }),
        (HookResult::Skip { reason: text })@ == (HookView::Skip { reason: text@ }),
        (HookResult::Abort { reason: text })@ == (HookView::Abort { reason: text@ }),
        StopReason::Completed@ == StopView::Completed,
        StopReason::UserCancelled@ == StopView::UserCancelled,
        (StopReason::AbortedByHook { reason: text })@ == (StopView::AbortedByHook {
            reason: text@,
        }),
        StopReason::BudgetExhausted@ == StopView::BudgetExhausted,
        (StopReason::Error { message: text })@ == (StopView::Error { message: text@ }),
        (ToolFailure::Error { message: text })@ == (FailureView::Error { message: text@ }),
        ToolFailure::Cancelled@ == FailureView::Cancelled,
        ToolFailure::Timeout@ == FailureView::Timeout,
{
}

} // verus!
