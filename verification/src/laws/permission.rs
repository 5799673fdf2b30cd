//! Permissions, modes and decisions on the wire, part by part.

use vstd::prelude::*;
use crate::approval::{DecisionView, ReviewDecision};
use crate::json::{Entries, Numeral, Tree};
use crate::laws::message::lemma_lone_names;
use crate::permission::{permission_text, Permission, PermissionMode, PermissionView};
use crate::wire::Wire;

verus! {

/// The names differ from one another.
proof fn lemma_mode_names()
    ensures
        "plan"@.len() == 4,
        "accept_edits"@.len() == 12,
        "bypass_permissions"@.len() == 18,
{
    reveal_strlit("plan");
    reveal_strlit("accept_edits");
    reveal_strlit("bypass_permissions");
}

/// A mode is written as its name, and read from that, from an object that
/// holds just that name with `null`, and within tagged values from one that
/// holds it with an empty object.
pub proof fn mode_on_the_wire(v: PermissionMode, t: Tree, nested: bool)
    ensures
        ({
            let name = match v {
                PermissionMode::Plan => "plan"@,
                PermissionMode::AcceptEdits => "accept_edits"@,
                PermissionMode::BypassPermissions => "bypass_permissions"@,
            };
            &&& PermissionMode::encoded(v) == Tree::Text(name)
            &&& PermissionMode::decoded(t, nested) == Some(v) <==> {
                ||| t == Tree::Text(name)
                ||| t == Tree::Record(Entries::empty().insert(name, Tree::Null))
                ||| nested && t == Tree::Record(
                    Entries::empty().insert(name, Tree::Record(Entries::empty())),
                )
            }
        }),
{
    lemma_mode_names();
    lemma_lone_names();
}

/// The names differ from one another.
proof fn lemma_permission_names()
    ensures
        "kind"@.len() == 4,
        "reason"@.len() == 6,
        "prompt"@.len() == 6,
        "allow"@.len() == 5,
        "deny"@.len() == 4,
        "ask_user"@.len() == 8,
        "reason"@[0] != "prompt"@[0],
{
    reveal_strlit("kind");
    reveal_strlit("reason");
    reveal_strlit("prompt");
    reveal_strlit("allow");
    reveal_strlit("deny");
    reveal_strlit("ask_user");
}

/// A permission is read from an object exactly where its tag names its variant and each of its
/// parts is what the member of that name holds. No other member matters.
pub proof fn permission_read_from_object(e: Entries, nested: bool, v: PermissionView)
    ensures
        Permission::decoded(Tree::Record(e), nested) == Some(v) <==> match v {
            PermissionView::Allow => {
                &&& e.contains_key("kind"@)
                &&& e["kind"@] == Tree::Text("allow"@) || nested && e["kind"@]
                    == Tree::Number(Numeral::Natural(0))
            },
            PermissionView::Deny { reason } => {
                &&& e.contains_key("kind"@)
                &&& e["kind"@] == Tree::Text("deny"@) || nested && e["kind"@]
                    == Tree::Number(Numeral::Natural(1))
                &&& e.contains_key("reason"@) && e["reason"@] == Tree::Text(reason)
            },
            PermissionView::AskUser { prompt } => {
                &&& e.contains_key("kind"@)
                &&& e["kind"@] == Tree::Text("ask_user"@) || nested && e["kind"@]
                    == Tree::Number(Numeral::Natural(2))
                &&& match prompt {
                    Some(p) => {
                        &&& e.contains_key("prompt"@)
                        &&& e["prompt"@] == Tree::Text(p)
                    },
                    None => e.contains_key("prompt"@) ==> e["prompt"@] == Tree::Null,
                }
            },
        },
{
    lemma_permission_names();
}

/// A permission is read from an array exactly where its tag and its parts stand there in the
/// order of their declaration and nothing else does.
pub proof fn permission_read_from_array(s: Seq<Tree>, nested: bool, v: PermissionView)
    ensures
        Permission::decoded(Tree::List(s), nested) == Some(v) <==> match v {
            PermissionView::Allow => {
                &&& s.len() > 0
                &&& s[0] == Tree::Text("allow"@) || nested && s[0]
                    == Tree::Number(Numeral::Natural(0))
                &&& 1 <= s.len() <= 1
            },
            PermissionView::Deny { reason } => {
                &&& s.len() > 0
                &&& s[0] == Tree::Text("deny"@) || nested && s[0]
                    == Tree::Number(Numeral::Natural(1))
                &&& 2 <= s.len() <= 2
                &&& s.len() > 1 && s[1] == Tree::Text(reason)
            },
            PermissionView::AskUser { prompt } => {
                &&& s.len() > 0
                &&& s[0] == Tree::Text("ask_user"@) || nested && s[0]
                    == Tree::Number(Numeral::Natural(2))
                &&& 2 <= s.len() <= 2
                &&& match prompt {
                    Some(p) => {
                        &&& s.len() > 1
                        &&& s[1] == Tree::Text(p)
                    },
                    None => s.len() > 1 && s[1] == Tree::Null,
                }
            },
        },
{
    lemma_permission_names();
}

/// A permission is read from nothing but objects and arrays.
pub proof fn permission_read_from_nothing_else(t: Tree, nested: bool)
    requires
        !(t is Record),
        !(t is List),
    ensures
        Permission::decoded(t, nested) is None,
{
}

/// A permission is written as an object with its tag, whose other members hold its
/// parts, each under its name.
pub proof fn permission_written(v: PermissionView)
    ensures
        Permission::encoded(v) is Record,
        ({
            let e = Permission::encoded(v)->Record_0;
            match v {
                PermissionView::Allow => {
                    &&& forall|k: Seq<char>| #[trigger] e.contains_key(k) <==> (k == "kind"@)
                    &&& e["kind"@] == Tree::Text("allow"@)
                },
                PermissionView::Deny { reason } => {
                    &&& forall|k: Seq<char>| #[trigger]
                        e.contains_key(k) <==> {
                            ||| k == "kind"@
                            ||| k == "reason"@
                        }
                    &&& e["kind"@] == Tree::Text("deny"@)
                    &&& e["reason"@] == Tree::Text(reason)
                },
                PermissionView::AskUser { prompt } => {
                    &&& forall|k: Seq<char>| #[trigger]
                        e.contains_key(k) <==> {
                            ||| k == "kind"@
                            ||| k == "prompt"@
                        }
                    &&& e["kind"@] == Tree::Text("ask_user"@)
                    &&& match prompt {
                        Some(p) => e["prompt"@] == Tree::Text(p),
                        None => e["prompt"@] == Tree::Null,
                    }
                },
            }
        }),
{
    lemma_permission_names();
}

/// The names differ from one another.
proof fn lemma_decision_names()
    ensures
        "kind"@.len() == 4,
        "reason"@.len() == 6,
        "approve"@.len() == 7,
        "deny"@.len() == 4,
{
    reveal_strlit("kind");
    reveal_strlit("reason");
    reveal_strlit("approve");
    reveal_strlit("deny");
}

/// A decision is read from an object exactly where its tag names its variant and each of its
/// parts is what the member of that name holds. No other member matters.
pub proof fn decision_read_from_object(e: Entries, nested: bool, v: DecisionView)
    ensures
        ReviewDecision::decoded(Tree::Record(e), nested) == Some(v) <==> match v {
            DecisionView::Approve => {
                &&& e.contains_key("kind"@)
                &&& e["kind"@] == Tree::Text("approve"@) || nested && e["kind"@]
                    == Tree::Number(Numeral::Natural(0))
            },
            DecisionView::Deny { reason } => {
                &&& e.contains_key("kind"@)
                &&& e["kind"@] == Tree::Text("deny"@) || nested && e["kind"@]
                    == Tree::Number(Numeral::Natural(1))
                &&& e.contains_key("reason"@) && e["reason"@] == Tree::Text(reason)
            },
        },
{
    lemma_decision_names();
}

/// A decision is read from an array exactly where its tag and its parts stand there in the
/// order of their declaration and nothing else does.
pub proof fn decision_read_from_array(s: Seq<Tree>, nested: bool, v: DecisionView)
    ensures
        ReviewDecision::decoded(Tree::List(s), nested) == Some(v) <==> match v {
            DecisionView::Approve => {
                &&& s.len() > 0
                &&& s[0] == Tree::Text("approve"@) || nested && s[0]
                    == Tree::Number(Numeral::Natural(0))
                &&& 1 <= s.len() <= 1
            },
            DecisionView::Deny { reason } => {
                &&& s.len() > 0
                &&& s[0] == Tree::Text("deny"@) || nested && s[0]
                    == Tree::Number(Numeral::Natural(1))
                &&& 2 <= s.len() <= 2
                &&& s.len() > 1 && s[1] == Tree::Text(reason)
            },
        },
{
    lemma_decision_names();
}

/// A decision is read from nothing but objects and arrays.
pub proof fn decision_read_from_nothing_else(t: Tree, nested: bool)
    requires
        !(t is Record),
        !(t is List),
    ensures
        ReviewDecision::decoded(t, nested) is None,
{
}

/// A decision is written as an object with its tag, whose other members hold its
/// parts, each under its name.
pub proof fn decision_written(v: DecisionView)
    ensures
        ReviewDecision::encoded(v) is Record,
        ({
            let e = ReviewDecision::encoded(v)->Record_0;
            match v {
                DecisionView::Approve => {
                    &&& forall|k: Seq<char>| #[trigger] e.contains_key(k) <==> (k == "kind"@)
                    &&& e["kind"@] == Tree::Text("approve"@)
                },
                DecisionView::Deny { reason } => {
                    &&& forall|k: Seq<char>| #[trigger]
                        e.contains_key(k) <==> {
                            ||| k == "kind"@
                            ||| k == "reason"@
                        }
                    &&& e["kind"@] == Tree::Text("deny"@)
                    &&& e["reason"@] == Tree::Text(reason)
                },
            }
        }),
{
    lemma_decision_names();
}

/// A permission as a line of text is its name, and behind it the reason or the
/// prompt where there is one.
pub proof fn permission_as_text(v: PermissionView)
    ensures
        match v {
            PermissionView::Allow => permission_text(v) == "allow"@,
            PermissionView::Deny { reason } => permission_text(v) == "deny"@ + ": "@ + reason,
            PermissionView::AskUser { prompt: Some(p) } => permission_text(v) == "ask_user"@ + ": "@
                + p,
            PermissionView::AskUser { prompt: None } => permission_text(v) == "ask_user"@,
        },
{
    reveal_strlit("deny");
    reveal_strlit("deny: ");
    reveal_strlit("ask_user");
    reveal_strlit("ask_user: ");
    reveal_strlit(": ");
    assert("deny"@ + ": "@ =~= "deny: "@);
    assert("ask_user"@ + ": "@ =~= "ask_user: "@);
}

/// The views of permissions and decisions hold their parts.
pub proof fn permission_says(reason: String, prompt: String)
    ensures
        Permission::Allow@ == PermissionView::Allow,
        (Permission::AskUser { prompt: None })@ == (PermissionView::AskUser { prompt: None }),
        (Permission::Deny { reason })@ == (PermissionView::Deny { reason: reason@ }),
        (Permission::AskUser { prompt: Some(prompt) })@ == (PermissionView::AskUser {
            prompt: Some(prompt@),
        }),
        ReviewDecision::Approve@ == DecisionView::Approve,
        (ReviewDecision::Deny { reason })@ == (DecisionView::Deny { reason: reason@ }),
{
}

} // verus!
