//! Scripts as the host knows them: a name and the hooks the script defines, and the
//! way a run of the engine is turned into a result.
use vstd::prelude::*;

use crate::error::ScriptError;
use crate::text::{same_text, trim_end, trimmed_end};

verus! {

/// An event a script can listen to, by defining a global function of the hook's name.
#[derive(Clone, Copy, Debug, PartialEq, Eq, Structural)]
pub enum Hook {
    OnMessage,
    OnJoin,
    OnLeave,
    OnMemberChange,
    OnRead,
    OnReaction,
    OnFeed,
    OnMetaChange,
    OnSyncJoin,
    OnLinkProfile,
    OnLeft,
    OnLogin,
    OnListening,
    OnKicked,
    OnMoved,
    OnPush,
    OnConnect,
    OnClose,
}

/// Every hook, in the order the engine looks for them.
pub open spec fn hook_order() -> Seq<Hook> {
    seq![
        Hook::OnMessage,
        Hook::OnJoin,
        Hook::OnLeave,
        Hook::OnMemberChange,
        Hook::OnRead,
        Hook::OnReaction,
        Hook::OnFeed,
        Hook::OnMetaChange,
        Hook::OnSyncJoin,
        Hook::OnLinkProfile,
        Hook::OnLeft,
        Hook::OnLogin,
        Hook::OnListening,
        Hook::OnKicked,
        Hook::OnMoved,
        Hook::OnPush,
        Hook::OnConnect,
        Hook::OnClose,
    ]
}

impl Hook {
    /// The name of the global function that handles the hook.
    pub open spec fn label(self) -> Seq<char> {
        match self {
            Hook::OnMessage => "onMessage"@,
            Hook::OnJoin => "onJoin"@,
            Hook::OnLeave => "onLeave"@,
            Hook::OnMemberChange => "onMemberChange"@,
            Hook::OnRead => "onRead"@,
            Hook::OnReaction => "onReaction"@,
            Hook::OnFeed => "onFeed"@,
            Hook::OnMetaChange => "onMetaChange"@,
            Hook::OnSyncJoin => "onSyncJoin"@,
            Hook::OnLinkProfile => "onLinkProfile"@,
            Hook::OnLeft => "onLeft"@,
            Hook::OnLogin => "onLogin"@,
            Hook::OnListening => "onListening"@,
            Hook::OnKicked => "onKicked"@,
            Hook::OnMoved => "onMoved"@,
            Hook::OnPush => "onPush"@,
            Hook::OnConnect => "onConnect"@,
            Hook::OnClose => "onClose"@,
        }
    }

    /// The name of the global function that handles the hook.
    pub fn name(self) -> (s: &'static str)
        ensures
            s@ == self.label(),
    {
        match self {
            Hook::OnMessage => "onMessage",
            Hook::OnJoin => "onJoin",
            Hook::OnLeave => "onLeave",
            Hook::OnMemberChange => "onMemberChange",
            Hook::OnRead => "onRead",
            Hook::OnReaction => "onReaction",
            Hook::OnFeed => "onFeed",
            Hook::OnMetaChange => "onMetaChange",
            Hook::OnSyncJoin => "onSyncJoin",
            Hook::OnLinkProfile => "onLinkProfile",
            Hook::OnLeft => "onLeft",
            Hook::OnLogin => "onLogin",
            Hook::OnListening => "onListening",
            Hook::OnKicked => "onKicked",
            Hook::OnMoved => "onMoved",
            Hook::OnPush => "onPush",
            Hook::OnConnect => "onConnect",
            Hook::OnClose => "onClose",
        }
    }
}

/// Every hook, in the order the engine looks for them.
pub fn all_hooks() -> (hooks: Vec<Hook>)
    ensures
        hooks@ == hook_order(),
{
    let hooks = vec![
        Hook::OnMessage,
        Hook::OnJoin,
        Hook::OnLeave,
        Hook::OnMemberChange,
        Hook::OnRead,
        Hook::OnReaction,
        Hook::OnFeed,
        Hook::OnMetaChange,
        Hook::OnSyncJoin,
        Hook::OnLinkProfile,
        Hook::OnLeft,
        Hook::OnLogin,
        Hook::OnListening,
        Hook::OnKicked,
        Hook::OnMoved,
        Hook::OnPush,
        Hook::OnConnect,
        Hook::OnClose,
    ];
    assert(hooks@ =~= hook_order());
    hooks
}

/// The hooks of `order` whose place in `present` is marked; a place past the end of
/// `present` counts as unmarked.
pub open spec fn marked_hooks(order: Seq<Hook>, present: Seq<bool>) -> Seq<Hook>
    decreases order.len(),
{
    if order.len() == 0 {
        Seq::empty()
    } else {
        let k = order.len() - 1;
        let before = marked_hooks(order.drop_last(), present);
        if k < present.len() && present[k] {
            before.push(order.last())
        } else {
            before
        }
    }
}

/// A script the engine accepted: its name and the hooks it defines.
pub struct Script {
    name: String,
    defined: Vec<Hook>,
}

impl Script {
    /// The script's name.
    pub closed spec fn script_name(&self) -> Seq<char> {
        self.name@
    }

    /// The hooks the script defines, in the engine's order.
    pub closed spec fn handles(&self) -> Seq<Hook> {
        self.defined@
    }

    /// What compiling a script comes to. The engine either refused the script, with a
    /// report of where it broke, or ran its top level; then, for each hook in
    /// `hook_order()`, `present` says whether the script left a function of the
    /// hook's name behind.
    pub fn compiled(name: &str, outcome: Result<Vec<bool>, String>) -> (script: Result<
        Script,
        ScriptError,
    >)
        ensures
            match outcome {
                Ok(present) => script matches Ok(s) && s.script_name() == name@ && s.handles()
                    == marked_hooks(hook_order(), present@),
                Err(report) => script matches Err(ScriptError::Compile { name: n, report: r })
                    && n@ == name@ && r == report,
            },
    {
        match outcome {
            Ok(present) => {
                let order = all_hooks();
                let mut defined: Vec<Hook> = Vec::new();
                let mut i: usize = 0;
                while i < order.len()
                    invariant
                        order@ == hook_order(),
                        i <= order@.len(),
                        defined@ == marked_hooks(order@.take(i as int), present@),
                    decreases order@.len() - i,
                {
                    assert(order@.take(i + 1).drop_last() =~= order@.take(i as int));
                    if i < present.len() && present[i] {
                        defined.push(order[i]);
                    }
                    i = i + 1;
                }
                assert(order@.take(order@.len() as int) =~= order@);
                Ok(Script { name: String::from_str(name), defined })
            },
            Err(report) => Err(ScriptError::Compile { name: String::from_str(name), report }),
        }
    }

    /// The script's name.
    pub fn name(&self) -> (name: &str)
        ensures
            name@ == self.script_name(),
    {
        self.name.as_str()
    }

    /// Whether the script defines the hook of that name.
    pub fn defines(&self, hook: &str) -> (b: bool)
        ensures
            b == exists|i: int| 0 <= i < self.handles().len() && (#[trigger] self.handles()[i]).label() == hook@,
    {
        let mut i: usize = 0;
        while i < self.defined.len()
            invariant
                i <= self.defined@.len(),
                forall|j: int| 0 <= j < i ==> (#[trigger] self.defined@[j]).label() != hook@,
            decreases self.defined@.len() - i,
        {
            if same_text(self.defined[i].name(), hook) {
                assert(self.handles()[i as int].label() == hook@);
                return true;
            }
            i = i + 1;
        }
        false
    }

    /// Whether the script defines the hook.
    pub fn defines_hook(&self, hook: Hook) -> (b: bool)
        ensures
            b == self.handles().contains(hook),
    {
        let mut i: usize = 0;
        while i < self.defined.len()
            invariant
                i <= self.defined@.len(),
                forall|j: int| 0 <= j < i ==> self.defined@[j] != hook,
            decreases self.defined@.len() - i,
        {
            if self.defined[i] == hook {
                assert(self.defined@[i as int] == hook);
                return true;
            }
            i = i + 1;
        }
        false
    }

    /// The names of the hooks the script defines, in the engine's order.
    pub fn hooks(&self) -> (names: Vec<&'static str>)
        ensures
            names@.len() == self.handles().len(),
            forall|i: int| 0 <= i < names@.len() ==> (#[trigger] names@[i])@ == self.handles()[i].label(),
    {
        let mut names: Vec<&'static str> = Vec::new();
        let mut i: usize = 0;
        while i < self.defined.len()
            invariant
                i <= self.defined@.len(),
                names@.len() == i,
                forall|j: int| 0 <= j < i ==> (#[trigger] names@[j])@ == self.defined@[j].label(),
            decreases self.defined@.len() - i,
        {
            names.push(self.defined[i].name());
            i = i + 1;
        }
        names
    }

    /// What a hook's run comes to: a report of what it threw becomes a failure of the
    /// script.
    pub fn finished(outcome: Result<(), String>) -> (result: Result<(), ScriptError>)
        ensures
            match outcome {
                Ok(()) => result is Ok,
                Err(report) => result == Err::<(), ScriptError>(ScriptError::Vm(report)),
            },
    {
        match outcome {
            Ok(()) => Ok(()),
            Err(report) => Err(ScriptError::Vm(report)),
        }
    }
}

/// A failure of the engine itself, with its text.
pub fn engine_error(message: String) -> (error: ScriptError)
    ensures
        error == ScriptError::Rune(message),
{
    ScriptError::Rune(message)
}

/// The report of an exception: its message (or, without one, the text of the whole
/// error), then its stack on the next line without trailing whitespace.
pub open spec fn report_text(
    message: Option<Seq<char>>,
    fallback: Seq<char>,
    stack: Option<Seq<char>>,
) -> Seq<char> {
    let head = match message {
        Some(m) => m,
        None => fallback,
    };
    match stack {
        Some(s) => head + "\n"@ + trimmed_end(s),
        None => head,
    }
}

/// How a thrown exception is reported.
pub fn reported(message: Option<String>, fallback: String, stack: Option<String>) -> (report: String)
    ensures
        report@ == report_text(
            match message {
                Some(m) => Some(m@),
                None => None,
            },
            fallback@,
            match stack {
                Some(s) => Some(s@),
                None => None,
            },
        ),
{
    let mut rendered = match message {
        Some(m) => m,
        None => fallback,
    };
    match stack {
        Some(s) => {
            let tail = trim_end(s.as_str());
            rendered.append("\n");
            rendered.append(tail.as_str());
        },
        None => {},
    }
    rendered
}


/// Different hooks go by different names.
pub proof fn lemma_labels_distinct(a: Hook, b: Hook)
    ensures
        a.label() == b.label() ==> a == b,
{
    reveal_strlit("onMessage");
    reveal_strlit("onJoin");
    reveal_strlit("onLeave");
    reveal_strlit("onMemberChange");
    reveal_strlit("onRead");
    reveal_strlit("onReaction");
    reveal_strlit("onFeed");
    reveal_strlit("onMetaChange");
    reveal_strlit("onSyncJoin");
    reveal_strlit("onLinkProfile");
    reveal_strlit("onLeft");
    reveal_strlit("onLogin");
    reveal_strlit("onListening");
    reveal_strlit("onKicked");
    reveal_strlit("onMoved");
    reveal_strlit("onPush");
    reveal_strlit("onConnect");
    reveal_strlit("onClose");
    if a.label() == b.label() && a != b {
        assert(a.label().len() == b.label().len());
        assert(a.label()[2] == b.label()[2]);
        assert(a.label()[3] == b.label()[3]);
        assert(a.label()[4] == b.label()[4]);
        assert(a.label()[5] == b.label()[5]);
    }
}

proof fn lemma_marked_prefix(order: Seq<Hook>, present: Seq<bool>, n: int, k: int)
    requires
        0 <= n <= order.len(),
        0 <= k < order.len(),
        forall|i: int, j: int| 0 <= i < j < order.len() ==> order[i] != order[j],
    ensures
        marked_hooks(order.take(n), present).contains(order[k]) <==> (k < n && k < present.len()
            && present[k]),
    decreases n,
{
    if n > 0 {
        let prefix = order.take(n);
        assert(prefix.drop_last() =~= order.take(n - 1));
        lemma_marked_prefix(order, present, n - 1, k);
        assert(prefix.last() == order[n - 1]);
        let before = marked_hooks(order.take(n - 1), present);
        let after = marked_hooks(prefix, present);
        if k != n - 1 {
            assert(order[k] != order[n - 1]);
        }
        if n - 1 < present.len() && present[n - 1] {
            assert(after == before.push(order[n - 1]));
            if before.contains(order[k]) {
                let i = choose|i: int| 0 <= i < before.len() && before[i] == order[k];
                assert(after[i] == order[k]);
            }
            if after.contains(order[k]) && k != n - 1 {
                let i = choose|i: int| 0 <= i < after.len() && after[i] == order[k];
                assert(i < before.len());
                assert(before[i] == order[k]);
            }
            if k == n - 1 {
                assert(after[before.len() as int] == order[k]);
            }
        } else {
            assert(after == before);
        }
    } else {
        assert(order.take(0) =~= Seq::<Hook>::empty());
        assert(marked_hooks(order.take(0), present) =~= Seq::<Hook>::empty());
    }
}

/// A compiled script defines a hook exactly when the engine found the hook's function:
/// `defines` with the hook's name answers the engine's finding for that hook.
pub proof fn lemma_defines_what_was_found(present: Seq<bool>, k: int, name: Seq<char>)
    requires
        0 <= k < hook_order().len(),
        name == hook_order()[k].label(),
    ensures
        (exists|i: int|
            0 <= i < marked_hooks(hook_order(), present).len() && (#[trigger] marked_hooks(
                hook_order(),
                present,
            )[i]).label() == name) <==> (k < present.len() && present[k]),
{
    let order = hook_order();
    let marked = marked_hooks(order, present);
    assert forall|i: int, j: int| 0 <= i < j < order.len() implies order[i] != order[j] by {}
    assert(order.take(order.len() as int) =~= order);
    lemma_marked_prefix(order, present, order.len() as int, k);
    if k < present.len() && present[k] {
        let i = choose|i: int| 0 <= i < marked.len() && marked[i] == order[k];
        assert(marked[i].label() == name);
    }
    if exists|i: int| 0 <= i < marked.len() && (#[trigger] marked[i]).label() == name {
        let i = choose|i: int| 0 <= i < marked.len() && (#[trigger] marked[i]).label() == name;
        lemma_labels_distinct(marked[i], order[k]);
        assert(marked.contains(order[k]));
    }
}


proof fn lemma_marked_all_or_none(order: Seq<Hook>, present: Seq<bool>)
    ensures
        (present.len() >= order.len() && forall|i: int| 0 <= i < order.len() ==> #[trigger] present[i])
            ==> marked_hooks(order, present) == order,
        (forall|i: int| 0 <= i < present.len() ==> !#[trigger] present[i]) ==> marked_hooks(order, present)
            == Seq::<Hook>::empty(),
    decreases order.len(),
{
    if order.len() > 0 {
        lemma_marked_all_or_none(order.drop_last(), present);
        if present.len() >= order.len() && forall|i: int| 0 <= i < order.len() ==> #[trigger] present[i] {
            assert(present[order.len() - 1]);
            assert(order.drop_last().push(order.last()) =~= order);
        }
    } else {
        assert(order =~= Seq::<Hook>::empty());
    }
}

/// A script that leaves every hook's function behind defines all of them, in the
/// engine's order; one that leaves none defines none.
pub proof fn lemma_every_hook_or_none(present: Seq<bool>)
    ensures
        (present.len() >= hook_order().len() && forall|i: int| 0 <= i < hook_order().len() ==> #[trigger] present[i])
            ==> marked_hooks(hook_order(), present) == hook_order(),
        (forall|i: int| 0 <= i < present.len() ==> !#[trigger] present[i]) ==> marked_hooks(
            hook_order(),
            present,
        ).len() == 0,
{
    lemma_marked_all_or_none(hook_order(), present);
}

} // verus!
