//! The render loop's decisions: for each window event, what to draw and
//! whether to keep running. The caller performs the commands and hands the
//! next event back.
use vstd::prelude::*;

verus! {

/// The events of the window's event loop that the renderer tells apart.
#[derive(Clone, Copy, Debug, PartialEq, Eq, Structural)]
pub enum LoopEvent {
    /// The user asked to close the window.
    CloseRequested,
    /// All pending events were handled: time to draw a frame.
    MainEventsCleared,
    /// Anything else.
    Other,
}

/// What the event loop should do after an event.
#[derive(Clone, Copy, Debug, PartialEq, Eq, Structural)]
pub enum LoopControl {
    /// Keep polling for events.
    Poll,
    /// Leave the loop.
    Exit,
}

/// One call of a frame, in the order to perform them.
#[derive(Clone, Copy, Debug, PartialEq, Eq, Structural)]
pub enum FrameCommand {
    /// Clear the colour buffer.
    Clear,
    /// Hand the model, view and projection matrices to the program.
    UploadMatrices,
    /// Draw `count` vertices as triangles, starting at vertex `first`.
    DrawTriangles { first: i32, count: i32 },
    /// Present the back buffer.
    SwapBuffers,
}

/// The kinds of frame commands, for counting them.
#[derive(Clone, Copy, Debug, PartialEq, Eq, Structural)]
pub enum CommandKind {
    Clear,
    UploadMatrices,
    Draw,
    Swap,
}

/// The state of the render loop.
#[derive(Clone, Copy, Debug, PartialEq, Eq, Structural)]
pub struct RenderLoop {
    /// Vertices in the bound vertex buffer, all drawn each frame.
    pub vertex_count: i32,
    /// Whether a close was requested.
    pub closed: bool,
}

/// What one event leads to.
#[derive(Clone, Debug)]
pub struct FrameStep {
    pub control: LoopControl,
    pub commands: Vec<FrameCommand>,
}

pub open spec fn kind_of(c: FrameCommand) -> CommandKind {
    match c {
        FrameCommand::Clear => CommandKind::Clear,
        FrameCommand::UploadMatrices => CommandKind::UploadMatrices,
        FrameCommand::DrawTriangles { .. } => CommandKind::Draw,
        FrameCommand::SwapBuffers => CommandKind::Swap,
    }
}

/// How many commands of kind `k` are in `cmds`.
pub open spec fn count_kind(cmds: Seq<FrameCommand>, k: CommandKind) -> nat
    decreases cmds.len(),
{
    if cmds.len() == 0 {
        0
    } else {
        (if kind_of(cmds[0]) == k {
            1nat
        } else {
            0nat
        }) + count_kind(cmds.drop_first(), k)
    }
}

/// The commands of one frame that draws `count` vertices.
pub open spec fn frame_commands(count: i32) -> Seq<FrameCommand> {
    seq![
        FrameCommand::Clear,
        FrameCommand::UploadMatrices,
        FrameCommand::DrawTriangles { first: 0, count },
        FrameCommand::SwapBuffers,
    ]
}

impl RenderLoop {
    pub open spec fn wf(self) -> bool {
        self.vertex_count >= 0
    }

    /// A running loop that draws `vertex_count` vertices each frame.
    pub fn new(vertex_count: i32) -> (r: RenderLoop)
        requires
            vertex_count >= 0,
        ensures
            r.wf(),
            r.vertex_count == vertex_count,
            !r.closed,
    {
        RenderLoop { vertex_count, closed: false }
    }

    /// The next state, the control and the commands that follow an event.
    /// Once a close was requested the loop exits and draws nothing more.
    pub open spec fn step_spec(self, e: LoopEvent) -> (RenderLoop, LoopControl, Seq<FrameCommand>) {
        if self.closed {
            (self, LoopControl::Exit, seq![])
        } else {
            match e {
                LoopEvent::CloseRequested => (
                    RenderLoop { closed: true, ..self },
                    LoopControl::Exit,
                    seq![],
                ),
                LoopEvent::MainEventsCleared => (
                    self,
                    LoopControl::Poll,
                    frame_commands(self.vertex_count),
                ),
                LoopEvent::Other => (self, LoopControl::Poll, seq![]),
            }
        }
    }

    /// Handles one event of the window's event loop.
    pub fn step(&mut self, e: LoopEvent) -> (r: FrameStep)
        requires
            old(self).wf(),
        ensures
            final(self).wf(),
            (*final(self), r.control, r.commands@) == old(self).step_spec(e),
            e == LoopEvent::CloseRequested ==> r.control == LoopControl::Exit && r.commands@
                == Seq::<FrameCommand>::empty(),
            e == LoopEvent::MainEventsCleared && !old(self).closed ==> r.commands@
                == frame_commands(old(self).vertex_count),
    {
        if self.closed {
            return FrameStep { control: LoopControl::Exit, commands: Vec::new() };
        }
        match e {
            LoopEvent::CloseRequested => {
                self.closed = true;
                FrameStep { control: LoopControl::Exit, commands: Vec::new() }
            },
            LoopEvent::MainEventsCleared => {
                let commands = vec![
                    FrameCommand::Clear,
                    FrameCommand::UploadMatrices,
                    FrameCommand::DrawTriangles { first: 0, count: self.vertex_count },
                    FrameCommand::SwapBuffers,
                ];
                assert(commands@ =~= frame_commands(self.vertex_count));
                FrameStep { control: LoopControl::Poll, commands }
            },
            LoopEvent::Other => FrameStep { control: LoopControl::Poll, commands: Vec::new() },
        }
    }

    /// The final state and all the commands of a run of events.
    pub open spec fn run_spec(self, events: Seq<LoopEvent>) -> (RenderLoop, Seq<FrameCommand>)
        decreases events.len(),
    {
        if events.len() == 0 {
            (self, seq![])
        } else {
            let (next, _, cmds) = self.step_spec(events[0]);
            let (last, rest) = next.run_spec(events.drop_first());
            (last, cmds + rest)
        }
    }
}

/// The frame ticks of a run that come before its first close request, none
/// if the loop was already closed.
pub open spec fn ticks_before_close(closed: bool, events: Seq<LoopEvent>) -> nat
    decreases events.len(),
{
    if closed || events.len() == 0 || events[0] == LoopEvent::CloseRequested {
        0
    } else {
        (if events[0] == LoopEvent::MainEventsCleared {
            1nat
        } else {
            0nat
        }) + ticks_before_close(false, events.drop_first())
    }
}

proof fn lemma_count_concat(a: Seq<FrameCommand>, b: Seq<FrameCommand>, k: CommandKind)
    ensures
        count_kind(a + b, k) == count_kind(a, k) + count_kind(b, k),
    decreases a.len(),
{
    if a.len() > 0 {
        assert((a + b).drop_first() =~= a.drop_first() + b);
        lemma_count_concat(a.drop_first(), b, k);
    } else {
        assert(a + b =~= b);
    }
}

proof fn lemma_frame_has_one_of_each(count: i32, k: CommandKind)
    ensures
        count_kind(frame_commands(count), k) == 1,
{
    let f = frame_commands(count);
    assert(f.drop_first().drop_first().drop_first().drop_first() =~= Seq::<FrameCommand>::empty());
    reveal_with_fuel(count_kind, 5);
}

/// Each processed frame tick gives exactly one clear, one matrix upload,
/// one draw and one buffer swap, in that order, and nothing else does:
/// over any run of events each kind of command occurs as often as there are
/// frame ticks before the first close request.
pub proof fn lemma_one_frame_per_tick(s: RenderLoop, events: Seq<LoopEvent>, k: CommandKind)
    requires
        s.wf(),
    ensures
        count_kind(s.run_spec(events).1, k) == ticks_before_close(s.closed, events),
    decreases events.len(),
{
    if events.len() > 0 {
        let (next, _, cmds) = s.step_spec(events[0]);
        lemma_one_frame_per_tick(next, events.drop_first(), k);
        lemma_count_concat(cmds, next.run_spec(events.drop_first()).1, k);
        if !s.closed && events[0] == LoopEvent::MainEventsCleared {
            lemma_frame_has_one_of_each(s.vertex_count, k);
        } else {
            assert(count_kind(cmds, k) == 0);
            if s.closed || events[0] == LoopEvent::CloseRequested {
                lemma_closed_run_is_empty(next, events.drop_first());
            }
        }
    }
}

proof fn lemma_closed_run_is_empty(s: RenderLoop, events: Seq<LoopEvent>)
    requires
        s.closed,
    ensures
        s.run_spec(events).1 == Seq::<FrameCommand>::empty(),
        s.run_spec(events).0 == s,
    decreases events.len(),
{
    if events.len() > 0 {
        lemma_closed_run_is_empty(s, events.drop_first());
        assert(s.run_spec(events).1 =~= Seq::<FrameCommand>::empty());
    }
}

/// Every draw of a run submits all vertices of the buffer, from the first.
pub proof fn lemma_draw_submits_all_vertices(s: RenderLoop, events: Seq<LoopEvent>, i: int)
    requires
        s.wf(),
        0 <= i < s.run_spec(events).1.len(),
        s.run_spec(events).1[i] is DrawTriangles,
    ensures
        s.run_spec(events).1[i] == (FrameCommand::DrawTriangles { first: 0, count: s.vertex_count }),
    decreases events.len(),
{
    let (next, _, cmds) = s.step_spec(events[0]);
    let rest = next.run_spec(events.drop_first()).1;
    assert(s.run_spec(events).1 == cmds + rest);
    if i >= cmds.len() {
        lemma_draw_submits_all_vertices(next, events.drop_first(), i - cmds.len());
    }
}

/// A close request ends the run at once: the commands of a run are those of
/// the events up to and including its first close request.
pub proof fn lemma_close_stops_drawing(s: RenderLoop, events: Seq<LoopEvent>, i: int)
    requires
        0 <= i < events.len(),
        events[i] == LoopEvent::CloseRequested,
    ensures
        s.run_spec(events).1 == s.run_spec(events.take(i + 1)).1,
        s.run_spec(events).0.closed,
    decreases events.len(),
{
    let (next, _, cmds) = s.step_spec(events[0]);
    assert(events.take(i + 1).drop_first() =~= events.drop_first().take(i));
    if i == 0 {
        lemma_closed_run_is_empty(next, events.drop_first());
        lemma_closed_run_is_empty(next, events.take(1).drop_first());
    } else {
        lemma_close_stops_drawing(next, events.drop_first(), i - 1);
    }
}

} // verus!
