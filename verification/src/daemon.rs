//! The daemon sub-protocol of the packaging tool.
//!
//! In daemon mode the tool reads one argument per line from its input
//! stream; a single blank line ends one invocation's argument batch, upon
//! which the tool executes the accumulated arguments as one full command
//! and returns to waiting. [`DaemonSession`] models one exclusively owned
//! session over such a subprocess: it records the arguments accumulated
//! for the current invocation and the history of dispatched invocations,
//! and renders the exact bytes owed to the subprocess's input stream.
//! Spawning the subprocess and moving the bytes is the caller's concern.

use vstd::prelude::*;

use crate::strings::{push_char, views_of};

verus! {

/// An argument can travel on the wire only if it fills exactly one line:
/// it is non-empty (a blank line would end the batch) and holds no line
/// break of its own.
pub open spec fn valid_wire_arg(arg: Seq<char>) -> bool {
    arg.len() > 0 && forall|i: int| 0 <= i < arg.len() ==> arg[i] != '\n'
}

/// The bytes one invocation contributes to the input stream: each
/// argument followed by a line break, then the blank line that dispatches
/// the batch.
pub open spec fn invocation_wire(args: Seq<Seq<char>>) -> Seq<char>
    decreases args.len(),
{
    if args.len() == 0 {
        seq!['\n']
    } else {
        args[0] + seq!['\n'] + invocation_wire(args.skip(1))
    }
}

/// One live daemon-mode session, exclusively owned by its caller.
///
/// The session is idle when no argument is pending; writing arguments
/// moves it to accumulating; dispatching returns it to idle. There is no
/// shutdown message in the protocol: the session ends when the caller
/// closes the stream or terminates the subprocess.
pub struct DaemonSession {
    pending: Vec<String>,
    dispatched: Vec<Vec<String>>,
}

impl DaemonSession {
    /// The arguments accumulated for the invocation being assembled.
    pub closed spec fn pending_view(&self) -> Seq<Seq<char>> {
        views_of(self.pending@)
    }

    /// The argument batches dispatched so far, oldest first.
    pub closed spec fn dispatched_view(&self) -> Seq<Seq<Seq<char>>> {
        self.dispatched@.map_values(|inv: Vec<String>| views_of(inv@))
    }

    /// The session is idle: no argument awaits dispatch.
    pub open spec fn is_idle(&self) -> bool {
        self.pending_view().len() == 0
    }

    /// A fresh session: idle, with nothing dispatched.
    pub fn new() -> (r: DaemonSession)
        ensures
            r.pending_view() == Seq::<Seq<char>>::empty(),
            r.dispatched_view() == Seq::<Seq<Seq<char>>>::empty(),
    {
        let r = DaemonSession { pending: Vec::new(), dispatched: Vec::new() };
        proof {
            assert(r.pending_view() =~= Seq::<Seq<char>>::empty());
            assert(r.dispatched_view() =~= Seq::<Seq<Seq<char>>>::empty());
        }
        r
    }

    /// Accumulates one argument for the current invocation.
    pub fn write_arg(&mut self, arg: String)
        requires
            valid_wire_arg(arg@),
        ensures
            final(self).pending_view() == old(self).pending_view().push(arg@),
            final(self).dispatched_view() == old(self).dispatched_view(),
    {
        self.pending.push(arg);
        proof {
            assert(self.pending_view() =~= old(self).pending_view().push(
                self.pending@.last()@,
            ));
            assert(self.dispatched_view() =~= old(self).dispatched_view());
        }
    }

    /// Ends the current argument batch: exactly one invocation with the
    /// accumulated arguments is dispatched, and the session returns to
    /// idle. A dispatch with no intervening argument dispatches an empty
    /// invocation; that is the protocol's literal behaviour.
    pub fn end_invocation(&mut self) -> (wire: String)
        ensures
            final(self).dispatched_view() == old(self).dispatched_view().push(
                old(self).pending_view(),
            ),
            final(self).is_idle(),
            wire@ == invocation_wire(old(self).pending_view()),
    {
        let wire = render_invocation(&self.pending);
        let mut batch: Vec<String> = Vec::new();
        core::mem::swap(&mut self.pending, &mut batch);
        self.dispatched.push(batch);
        proof {
            assert(self.dispatched_view() =~= old(self).dispatched_view().push(
                old(self).pending_view(),
            ));
            assert(self.pending_view() =~= Seq::<Seq<char>>::empty());
        }
        wire
    }

    /// How many invocations this session has dispatched.
    pub fn dispatched_count(&self) -> (r: usize)
        ensures
            r == self.dispatched_view().len(),
    {
        self.dispatched.len()
    }
}

/// Renders the exact bytes one argument batch owes to the subprocess's
/// input stream.
pub fn render_invocation(args: &Vec<String>) -> (r: String)
    ensures
        r@ == invocation_wire(views_of(args@)),
{
    let n = args.len();
    let mut r = String::new();
    let mut i: usize = 0;
    proof {
        assert(views_of(args@).skip(0) =~= views_of(args@));
        assert(r@ + invocation_wire(views_of(args@)) =~= invocation_wire(views_of(args@)));
    }
    while i < n
        invariant
            i <= n,
            n == args@.len(),
            invocation_wire(views_of(args@)) == r@ + invocation_wire(
                views_of(args@).skip(i as int),
            ),
        decreases n - i,
    {
        let ghost before = r@;
        let ghost tail = views_of(args@).skip(i as int);
        r.append(args[i].as_str());
        push_char(&mut r, '\n');
        proof {
            assert(tail[0] == args@[i as int]@);
            assert(tail.skip(1) =~= views_of(args@).skip(i + 1));
            assert(r@ =~= before + (args@[i as int]@ + seq!['\n']));
            assert(before + (tail[0] + seq!['\n'] + invocation_wire(tail.skip(1))) =~= (before + (
            tail[0] + seq!['\n'])) + invocation_wire(tail.skip(1)));
        }
        i += 1;
    }
    push_char(&mut r, '\n');
    proof {
        assert(views_of(args@).skip(n as int) =~= Seq::<Seq<char>>::empty());
        assert(invocation_wire(Seq::<Seq<char>>::empty()) == seq!['\n']);
        assert(r@ =~= invocation_wire(views_of(args@)));
    }
    r
}

} // verus!
