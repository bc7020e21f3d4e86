use vstd::prelude::*;

verus! {

/// Whether the player is currently playing or paused. The worker starts
/// paused.
#[derive(Clone, Copy, Debug, PartialEq, Eq, Structural)]
pub enum PlayerState {
    PLAYING,
    PAUSED,
}

/// The command kinds the interface thread sends to the player worker.
#[derive(Clone, Copy, Debug, PartialEq, Eq, Structural)]
pub enum ThreadCommand {
    NONE,
    SONG,
    PLAYPAUSE,
    END,
    SKIP,
}

/// One message to the player worker: a command and, for `SONG`, the path of
/// the file to play.
#[derive(Debug)]
pub struct ThreadMessage {
    pub command: ThreadCommand,
    pub msg: Option<String>,
}

/// The specification-level content of a message.
pub ghost struct MessageView {
    pub command: ThreadCommand,
    pub msg: Option<Seq<char>>,
}

impl View for ThreadMessage {
    type V = MessageView;

    open spec fn view(&self) -> MessageView {
        MessageView {
            command: self.command,
            msg: match self.msg {
                Some(ref s) => Some(s@),
                None => None,
            },
        }
    }
}

/// What the worker does to the sink in response to one message.
#[derive(Debug, PartialEq)]
pub enum SinkAction {
    NOTHING,
    PAUSE,
    PLAY,
    APPEND(String),
    SKIPONE,
}

/// The player state after one command: `SONG` always plays, `PLAYPAUSE`
/// toggles, everything else keeps the state.
pub open spec fn spec_next_state(state: PlayerState, command: ThreadCommand) -> PlayerState {
    match command {
        ThreadCommand::SONG => PlayerState::PLAYING,
        ThreadCommand::PLAYPAUSE => match state {
            PlayerState::PLAYING => PlayerState::PAUSED,
            PlayerState::PAUSED => PlayerState::PLAYING,
        },
        _ => state,
    }
}

/// Whether the worker keeps running after the command: only `END` stops it.
pub open spec fn spec_continue(command: ThreadCommand) -> bool {
    !(command is END)
}

/// What the worker may observably have done to its sink: every path handed
/// to it, in order, and whether it stands paused. Skipping changes which of
/// the handed items is audible, not what was handed or the pause flag.
pub ghost struct ModelView {
    pub appended: Seq<Seq<char>>,
    pub paused: bool,
}

/// The sink model after one message, consumed in state `state`.
pub open spec fn spec_apply_message(
    m: ModelView,
    state: PlayerState,
    message: MessageView,
) -> ModelView {
    match message.command {
        ThreadCommand::SONG => ModelView { appended: m.appended.push(message.msg->0), paused: false },
        ThreadCommand::PLAYPAUSE => match state {
            PlayerState::PLAYING => ModelView { paused: true, ..m },
            PlayerState::PAUSED => ModelView { paused: false, ..m },
        },
        _ => m,
    }
}

/// The player state and sink model after a sequence of messages, consumed
/// strictly in order.
pub open spec fn spec_run(
    state: PlayerState,
    m: ModelView,
    messages: Seq<MessageView>,
) -> (PlayerState, ModelView)
    decreases messages.len(),
{
    if messages.len() == 0 {
        (state, m)
    } else {
        spec_run(
            spec_next_state(state, messages.first().command),
            spec_apply_message(m, state, messages.first()),
            messages.drop_first(),
        )
    }
}

/// Decides what one message does: the next state, the action to perform on
/// the sink, and whether the worker keeps running. The whole command
/// protocol in one place; the worker loop only executes what this returns.
pub fn step(state: PlayerState, message: ThreadMessage) -> (r: (PlayerState, SinkAction, bool))
    requires
        message.command is SONG ==> message.msg is Some,
    ensures
        r.0 == spec_next_state(state, message.command),
        r.2 == spec_continue(message.command),
        message.command is NONE ==> r.1 is NOTHING,
        message.command is END ==> r.1 is NOTHING,
        message.command is SKIP ==> r.1 is SKIPONE,
        (message.command is PLAYPAUSE && state is PLAYING) ==> r.1 is PAUSE,
        (message.command is PLAYPAUSE && state is PAUSED) ==> r.1 is PLAY,
        message.command is SONG ==> (r.1 matches SinkAction::APPEND(p) && p@ == message@.msg->0),
    {
    match message.command {
        ThreadCommand::NONE => (state, SinkAction::NOTHING, true),
        ThreadCommand::PLAYPAUSE => match state {
            PlayerState::PLAYING => (PlayerState::PAUSED, SinkAction::PAUSE, true),
            PlayerState::PAUSED => (PlayerState::PLAYING, SinkAction::PLAY, true),
        },
        ThreadCommand::SONG => (PlayerState::PLAYING, SinkAction::APPEND(message.msg.unwrap()), true),
        ThreadCommand::SKIP => (state, SinkAction::SKIPONE, true),
        ThreadCommand::END => (state, SinkAction::NOTHING, false),
    }
}

/// An executable model of the sink, for exercising the command protocol
/// without an audio device.
pub struct SinkModel {
    appended: Vec<String>,
    paused: bool,
}

impl View for SinkModel {
    type V = ModelView;

    closed spec fn view(&self) -> ModelView {
        ModelView { appended: self.appended.deep_view(), paused: self.paused }
    }
}

impl SinkModel {
    /// A fresh sink: nothing handed to it, paused like the worker.
    pub fn new() -> (m: SinkModel)
        ensures
            m@.appended =~= Seq::<Seq<char>>::empty(),
            m@.paused == true,
    {
        SinkModel { appended: Vec::new(), paused: true }
    }

    /// Every path handed to the sink, in order.
    pub fn appended(&self) -> (r: &Vec<String>)
        ensures
            r.deep_view() == self@.appended,
    {
        &self.appended
    }

    /// Whether the sink stands paused.
    pub fn is_paused(&self) -> (r: bool)
        ensures
            r == self@.paused,
    {
        self.paused
    }

    /// Performs one action on the model.
    pub fn apply(&mut self, action: &SinkAction)
        ensures
            action is NOTHING ==> final(self)@ == old(self)@,
            action is SKIPONE ==> final(self)@ == old(self)@,
            action is PAUSE ==> final(self)@ == (ModelView { paused: true, ..old(self)@ }),
            action is PLAY ==> final(self)@ == (ModelView { paused: false, ..old(self)@ }),
            action matches SinkAction::APPEND(p) ==> final(self)@ == (ModelView {
                appended: old(self)@.appended.push(p@),
                paused: false,
            }),
    {
        match action {
            SinkAction::NOTHING => (),
            SinkAction::SKIPONE => (),
            SinkAction::PAUSE => {
                self.paused = true;
            },
            SinkAction::PLAY => {
                self.paused = false;
            },
            SinkAction::APPEND(p) => {
                self.appended.push(p.clone());
                self.paused = false;
                proof {
                    assert(self@.appended =~= old(self)@.appended.push(p@));
                }
            },
        }
    }

    /// Consumes one message: decides with `step`, performs the action here,
    /// and returns the next state and whether the worker keeps running.
    pub fn run_message(&mut self, state: PlayerState, message: ThreadMessage) -> (r: (
        PlayerState,
        bool,
    ))
        requires
            message.command is SONG ==> message.msg is Some,
        ensures
            r.0 == spec_next_state(state, message.command),
            r.1 == spec_continue(message.command),
            final(self)@ == spec_apply_message(old(self)@, state, message@),
    {
        let (next, action, go_on) = step(state, message);
        self.apply(&action);
        (next, go_on)
    }
}

/// Command ordering: however the player starts, the messages "play `a`",
/// then "pause or resume", then "play `b`", consumed strictly in send
/// order, always leave the player playing and unpaused, with exactly `a`
/// and then `b` handed to the sink after whatever was handed before.
pub proof fn lemma_command_ordering(state: PlayerState, m: ModelView, a: Seq<char>, b: Seq<char>)
    ensures
        ({
            let messages = seq![
                MessageView { command: ThreadCommand::SONG, msg: Some(a) },
                MessageView { command: ThreadCommand::PLAYPAUSE, msg: None },
                MessageView { command: ThreadCommand::SONG, msg: Some(b) },
            ];
            let r = spec_run(state, m, messages);
            &&& r.0 is PLAYING
            &&& r.1.appended == m.appended.push(a).push(b)
            &&& r.1.paused == false
        }),
{
    let messages = seq![
        MessageView { command: ThreadCommand::SONG, msg: Some(a) },
        MessageView { command: ThreadCommand::PLAYPAUSE, msg: None },
        MessageView { command: ThreadCommand::SONG, msg: Some(b) },
    ];
    let s1 = spec_next_state(state, ThreadCommand::SONG);
    let m1 = spec_apply_message(m, state, messages[0]);
    let s2 = spec_next_state(s1, ThreadCommand::PLAYPAUSE);
    let m2 = spec_apply_message(m1, s1, messages[1]);
    let s3 = spec_next_state(s2, ThreadCommand::SONG);
    let m3 = spec_apply_message(m2, s2, messages[2]);
    let t1 = messages.drop_first();
    let t2 = t1.drop_first();
    let t3 = t2.drop_first();
    assert(t1 =~= seq![messages[1], messages[2]]);
    assert(t2 =~= seq![messages[2]]);
    assert(t3 =~= Seq::<MessageView>::empty());
    assert(spec_run(state, m, messages) == spec_run(s1, m1, t1));
    assert(spec_run(s1, m1, t1) == spec_run(s2, m2, t2));
    assert(spec_run(s2, m2, t2) == spec_run(s3, m3, t3));
    assert(spec_run(s3, m3, t3) == (s3, m3));
}

} // verus!
