//! The WebSocket hub: which channels are connected, what a frame asks for,
//! what it does to the tasks and who is told.

use vstd::prelude::*;
use vstd::string::*;
use vstd::utf8::*;
use crate::store::{copy_tasks, random_id, StateView, TodoState};
use crate::task::{
    distinct, fresh_id, has_id, hyphens, index_of_id, lemma_fresh_id_is_unused, task_views,
    toggled, TaskView, TodoItem,
};
use crate::text::{decode_utf8_text, is_blank, opt_view};

verus! {

/// The kinds of frame that a channel delivers.
#[derive(Clone, Copy, Debug, PartialEq, Eq, Structural)]
pub enum FrameKind {
    Text,
    Binary,
    Ping,
    Pong,
    Close,
}

/// What a text frame asks for.
#[derive(Debug)]
pub enum Command {
    GetTasks,
    AddTask(String),
    ToggleTask(String),
}

/// A command as plain values.
pub enum CommandView {
    GetTasks,
    AddTask(Seq<char>),
    ToggleTask(Seq<char>),
}

impl View for Command {
    type V = CommandView;

    open spec fn view(&self) -> CommandView {
        match self {
            Command::GetTasks => CommandView::GetTasks,
            Command::AddTask(text) => CommandView::AddTask(text@),
            Command::ToggleTask(id) => CommandView::ToggleTask(id@),
        }
    }
}

/// An optional command as plain values.
pub open spec fn command_view(c: Option<Command>) -> Option<CommandView> {
    match c {
        Some(c) => Some(c@),
        None => None,
    }
}

/// The kinds of message that the hub sends.
#[derive(Clone, Copy, Debug, PartialEq, Eq, Structural)]
pub enum OutboundKind {
    TasksOverview,
    TaskAdded,
    TaskToggled,
}

/// The name that a kind of message carries in its `type` field.
pub open spec fn kind_name(kind: OutboundKind) -> Seq<char> {
    match kind {
        OutboundKind::TasksOverview => "tasks_overview"@,
        OutboundKind::TaskAdded => "task_added"@,
        OutboundKind::TaskToggled => "task_toggled"@,
    }
}

impl OutboundKind {
    /// The name that the kind carries in a message's `type` field.
    pub fn name(&self) -> (r: String)
        ensures
            r@ == kind_name(*self),
    {
        match self {
            OutboundKind::TasksOverview => String::from_str("tasks_overview"),
            OutboundKind::TaskAdded => String::from_str("task_added"),
            OutboundKind::TaskToggled => String::from_str("task_toggled"),
        }
    }
}

/// A message of the hub: its kind, the task it is about if it is about
/// one, and all tasks as they stand once the command is carried out.
#[derive(Debug)]
pub struct Outbound {
    pub kind: OutboundKind,
    pub task: Option<TodoItem>,
    pub tasks: Vec<TodoItem>,
}

/// A message as plain values.
pub struct OutboundView {
    pub kind: OutboundKind,
    pub task: Option<TaskView>,
    pub tasks: Seq<TaskView>,
}

/// An optional task as plain values.
pub open spec fn opt_task_view(t: Option<TodoItem>) -> Option<TaskView> {
    match t {
        Some(t) => Some(t@),
        None => None,
    }
}

impl View for Outbound {
    type V = OutboundView;

    open spec fn view(&self) -> OutboundView {
        OutboundView {
            kind: self.kind,
            task: opt_task_view(self.task),
            tasks: task_views(self.tasks@),
        }
    }
}

/// One message and the channels that it goes to, in the order of sending.
#[derive(Debug)]
pub struct Delivery {
    pub recipients: Vec<u32>,
    pub message: Outbound,
}

/// A delivery as plain values.
pub struct DeliveryView {
    pub recipients: Seq<u32>,
    pub message: OutboundView,
}

impl View for Delivery {
    type V = DeliveryView;

    open spec fn view(&self) -> DeliveryView {
        DeliveryView { recipients: self.recipients@, message: self.message@ }
    }
}

/// An optional delivery as plain values.
pub open spec fn delivery_view(d: Option<Delivery>) -> Option<DeliveryView> {
    match d {
        Some(d) => Some(d@),
        None => None,
    }
}

/// The string that a JSON document holds under a key: what
/// `serde_json::from_str` reads the document as, looked up with
/// `Value::get` and read with `Value::as_str`. There is none where the
/// document is not JSON, is no object, lacks the key, or holds something
/// other than a string under it.
pub uninterp spec fn json_string_field(doc: Seq<char>, key: Seq<char>) -> Option<Seq<char>>;

/// Parses `doc` once with `serde_json::from_str` into a `serde_json::Value`
/// and, for each of the three keys, looks the key up with `Value::get` and
/// reads what is there with `Value::as_str`. What comes of a key is a
/// function of the document and the key alone; the contract gives it its
/// name and claims nothing else.
#[verifier::external_body]
fn string_fields(doc: &str, first: &str, second: &str, third: &str) -> (r: (
    Option<String>,
    Option<String>,
    Option<String>,
))
    ensures
        opt_view(r.0) == json_string_field(doc@, first@),
        opt_view(r.1) == json_string_field(doc@, second@),
        opt_view(r.2) == json_string_field(doc@, third@),
{
    match serde_json::from_str::<serde_json::Value>(doc) {
        Ok(value) => (
            value.get(first).and_then(serde_json::Value::as_str).map(String::from),
            value.get(second).and_then(serde_json::Value::as_str).map(String::from),
            value.get(third).and_then(serde_json::Value::as_str).map(String::from),
        ),
        Err(_) => (None, None, None),
    }
}

/// The command that is made of the three fields of a frame: its action,
/// and the text and the identifier that it may carry. There is none where
/// the action is missing or unknown, or where the field that the action
/// needs is missing.
pub open spec fn command_of_fields(
    action: Option<Seq<char>>,
    text: Option<Seq<char>>,
    id: Option<Seq<char>>,
) -> Option<CommandView> {
    match action {
        Some(a) => if a == "get_tasks"@ {
            Some(CommandView::GetTasks)
        } else if a == "add_task"@ {
            match text {
                Some(t) => Some(CommandView::AddTask(t)),
                None => None,
            }
        } else if a == "toggle_task"@ {
            match id {
                Some(i) => Some(CommandView::ToggleTask(i)),
                None => None,
            }
        } else {
            None
        },
        None => None,
    }
}

/// The command that a frame's text asks for.
pub open spec fn command_of(frame: Seq<char>) -> Option<CommandView> {
    command_of_fields(
        json_string_field(frame, "action"@),
        json_string_field(frame, "text"@),
        json_string_field(frame, "id"@),
    )
}

/// The command that a frame's bytes ask for: none unless they are UTF-8.
pub open spec fn command_of_bytes(bytes: Seq<u8>) -> Option<CommandView> {
    if valid_utf8(bytes) {
        command_of(decode_utf8(bytes))
    } else {
        None
    }
}

/// The channels with `channel` among them: added at the end unless it is
/// there already.
pub open spec fn with_channel(channels: Seq<u32>, channel: u32) -> Seq<u32> {
    if channels.contains(channel) {
        channels
    } else {
        channels.push(channel)
    }
}

/// The channels without `channel`.
pub open spec fn without_channel(channels: Seq<u32>, channel: u32) -> Seq<u32> {
    if channels.contains(channel) {
        channels.remove(channels.index_of(channel))
    } else {
        channels
    }
}

/// The message that tells of all tasks.
pub open spec fn overview(tasks: Seq<TaskView>) -> OutboundView {
    OutboundView { kind: OutboundKind::TasksOverview, task: None, tasks }
}

/// The message that tells of a change to one task.
pub open spec fn change(kind: OutboundKind, task: TaskView, tasks: Seq<TaskView>) -> OutboundView {
    OutboundView { kind, task: Some(task), tasks }
}

/// What a command does: the state after it, and the message it sends with
/// its recipients. A request for the tasks is answered to the requester
/// alone. A task that is added or turned over is told to every connected
/// channel and to the requester. A blank text, an unknown identifier and a
/// frame without a command change nothing and send nothing.
pub open spec fn outcome(
    s: StateView,
    channel: u32,
    command: Option<CommandView>,
    candidate: Seq<char>,
) -> (StateView, Option<DeliveryView>) {
    match command {
        Some(CommandView::GetTasks) => (
            s,
            Some(DeliveryView { recipients: seq![channel], message: overview(s.tasks) }),
        ),
        Some(CommandView::AddTask(text)) => if is_blank(text) {
            (s, None)
        } else {
            let task = TaskView { id: fresh_id(s.tasks, candidate), text, completed: false };
            let tasks = s.tasks.push(task);
            (
                StateView { tasks, channels: s.channels },
                Some(
                    DeliveryView {
                        recipients: with_channel(s.channels, channel),
                        message: change(OutboundKind::TaskAdded, task, tasks),
                    },
                ),
            )
        },
        Some(CommandView::ToggleTask(id)) => if has_id(s.tasks, id) {
            let tasks = toggled(s.tasks, id);
            (
                StateView { tasks, channels: s.channels },
                Some(
                    DeliveryView {
                        recipients: with_channel(s.channels, channel),
                        message: change(
                            OutboundKind::TaskToggled,
                            tasks[index_of_id(s.tasks, id)],
                            tasks,
                        ),
                    },
                ),
            )
        } else {
            (s, None)
        },
        None => (s, None),
    }
}

/// Makes a command of the three fields of a frame.
pub fn command_from_fields(
    action: Option<String>,
    text: Option<String>,
    id: Option<String>,
) -> (r: Option<Command>)
    ensures
        command_view(r) == command_of_fields(opt_view(action), opt_view(text), opt_view(id)),
{
    match action {
        Some(a) => {
            if a == String::from_str("get_tasks") {
                Some(Command::GetTasks)
            } else if a == String::from_str("add_task") {
                match text {
                    Some(t) => Some(Command::AddTask(t)),
                    None => None,
                }
            } else if a == String::from_str("toggle_task") {
                match id {
                    Some(i) => Some(Command::ToggleTask(i)),
                    None => None,
                }
            } else {
                None
            }
        },
        None => None,
    }
}

/// Reads the command that a frame's text asks for.
pub fn decode_command(frame: &str) -> (r: Option<Command>)
    ensures
        command_view(r) == command_of(frame@),
{
    let (action, text, id) = string_fields(frame, "action", "text", "id");
    command_from_fields(action, text, id)
}

impl TodoState {
    /// Where a channel stands among the connected ones, if it is there.
    fn channel_position(&self, channel_id: u32) -> (r: Option<usize>)
        ensures
            r is Some == self@.channels.contains(channel_id),
            r matches Some(i) ==> i < self@.channels.len() && self@.channels[i as int]
                == channel_id,
    {
        let mut i: usize = 0;
        while i < self.ws_channels.len()
            invariant
                i <= self.ws_channels.len(),
                forall|j: int| 0 <= j < i ==> self@.channels[j] != channel_id,
            decreases self.ws_channels.len() - i,
        {
            if self.ws_channels[i] == channel_id {
                return Some(i);
            }
            i += 1;
        }
        None
    }

    /// The connected channels, in the order in which they connected.
    pub fn channels(&self) -> (r: Vec<u32>)
        ensures
            r@ == self@.channels,
    {
        self.ws_channels.clone()
    }

    /// Takes a channel in among the connected ones.
    pub fn connect(&mut self, channel_id: u32)
        ensures
            final(self)@.wf(),
            final(self)@.tasks == old(self)@.tasks,
            final(self)@.channels == with_channel(old(self)@.channels, channel_id),
    {
        proof {
            use_type_invariant(&*self);
            lemma_with_channel(self@.channels, channel_id);
        }
        if self.channel_position(channel_id).is_none() {
            let mut channels: Vec<u32> = Vec::new();
            std::mem::swap(&mut channels, &mut self.ws_channels);
            channels.push(channel_id);
            self.ws_channels = channels;
        }
    }

    /// Takes a channel out from among the connected ones.
    pub fn disconnect(&mut self, channel_id: u32)
        ensures
            final(self)@.wf(),
            final(self)@.tasks == old(self)@.tasks,
            final(self)@.channels == without_channel(old(self)@.channels, channel_id),
            !final(self)@.channels.contains(channel_id),
    {
        proof {
            use_type_invariant(&*self);
        }
        if let Some(i) = self.channel_position(channel_id) {
            proof {
                lemma_remove_distinct(self@.channels, i as int);
            }
            let mut channels: Vec<u32> = Vec::new();
            std::mem::swap(&mut channels, &mut self.ws_channels);
            channels.remove(i);
            self.ws_channels = channels;
        }
    }

    /// The channels that a change is told to: the connected ones, and the
    /// requester.
    fn recipients(&self, channel_id: u32) -> (r: Vec<u32>)
        ensures
            r@ == with_channel(self@.channels, channel_id),
    {
        let mut out = self.ws_channels.clone();
        if self.channel_position(channel_id).is_none() {
            out.push(channel_id);
        }
        out
    }

    /// Carries out a command that came over `channel_id`: `outcome` says
    /// what becomes of the state and what is sent. `candidate` is the
    /// identifier proposed for a task that is added.
    pub fn apply(&mut self, channel_id: u32, command: Option<Command>, candidate: String) -> (r:
        Option<Delivery>)
        ensures
            final(self)@.wf(),
            (final(self)@, delivery_view(r)) == outcome(
                old(self)@,
                channel_id,
                command_view(command),
                candidate@,
            ),
    {
        proof {
            use_type_invariant(&*self);
        }
        match command {
            Some(Command::GetTasks) => {
                let mut recipients: Vec<u32> = Vec::new();
                recipients.push(channel_id);
                assert(recipients@ =~= seq![channel_id]);
                Some(
                    Delivery {
                        recipients,
                        message: Outbound {
                            kind: OutboundKind::TasksOverview,
                            task: None,
                            tasks: copy_tasks(&self.tasks),
                        },
                    },
                )
            },
            Some(Command::AddTask(text)) => {
                match self.add_task_with_id(text, candidate) {
                    Ok(task) => Some(
                        Delivery {
                            recipients: self.recipients(channel_id),
                            message: Outbound {
                                kind: OutboundKind::TaskAdded,
                                task: Some(task),
                                tasks: copy_tasks(&self.tasks),
                            },
                        },
                    ),
                    Err(_) => None,
                }
            },
            Some(Command::ToggleTask(id)) => {
                match self.toggle_task(id) {
                    Ok(task) => Some(
                        Delivery {
                            recipients: self.recipients(channel_id),
                            message: Outbound {
                                kind: OutboundKind::TaskToggled,
                                task: Some(task),
                                tasks: copy_tasks(&self.tasks),
                            },
                        },
                    ),
                    Err(_) => None,
                }
            },
            None => None,
        }
    }

    /// Takes a frame that came over `channel_id` and says what is to be
    /// sent for it. A text frame is read as a command and carried out with
    /// a random candidate of 36 characters; one that is no UTF-8 or holds no command
    /// changes nothing and sends nothing. A close frame takes the channel
    /// out. The other frames change nothing.
    pub fn websocket(&mut self, channel_id: u32, message_type: FrameKind, bytes: Vec<u8>) -> (r:
        Option<Delivery>)
        ensures
            final(self)@.wf(),
            match message_type {
                FrameKind::Text => exists|candidate: Seq<char>|
                    candidate.len() == 36 && (final(self)@, delivery_view(r)) == #[trigger] outcome(
                        old(self)@,
                        channel_id,
                        command_of_bytes(bytes@),
                        candidate,
                    ),
                FrameKind::Close => r is None && final(self)@.tasks == old(self)@.tasks
                    && final(self)@.channels == without_channel(old(self)@.channels, channel_id),
                _ => r is None && final(self)@ == old(self)@,
            },
            message_type == FrameKind::Text && command_of_bytes(bytes@) is None ==> r is None
                && final(self)@ == old(self)@,
    {
        proof {
            use_type_invariant(&*self);
        }
        match message_type {
            FrameKind::Text => {
                let ghost before = self@;
                let ghost asked = command_of_bytes(bytes@);
                let command = match decode_utf8_text(bytes) {
                    Some(message) => decode_command(message.as_str()),
                    None => None,
                };
                let candidate = match &command {
                    Some(Command::AddTask(_)) => random_id(),
                    _ => String::new(),
                };
                let ghost witness = if asked is Some && asked->0 is AddTask {
                    candidate@
                } else {
                    hyphens(36)
                };
                let r = self.apply(channel_id, command, candidate);
                assert(witness.len() == 36 && (self@, delivery_view(r)) == outcome(
                    before,
                    channel_id,
                    asked,
                    witness,
                ));
                r
            },
            FrameKind::Close => {
                self.disconnect(channel_id);
                None
            },
            _ => None,
        }
    }
}

/// A frame that holds no command changes nothing and sends nothing.
pub proof fn lemma_no_command_no_effect(s: StateView, channel: u32, candidate: Seq<char>)
    ensures
        outcome(s, channel, None, candidate) == (s, None::<DeliveryView>),
{
}

/// A task that is added over a channel is told to every connected channel
/// and to the requester, each once; all of them get the same message, whose
/// tasks are those of the state after the change, the new task last among
/// them under an identifier that no task had.
pub proof fn lemma_added_task_is_broadcast(
    s: StateView,
    channel: u32,
    text: Seq<char>,
    candidate: Seq<char>,
)
    requires
        s.wf(),
        !is_blank(text),
    ensures
        ({
            let (after, sent) = outcome(s, channel, Some(CommandView::AddTask(text)), candidate);
            &&& after.wf()
            &&& after.channels == s.channels
            &&& after.tasks.len() == s.tasks.len() + 1
            &&& after.tasks.last().text == text
            &&& !after.tasks.last().completed
            &&& !has_id(s.tasks, after.tasks.last().id)
            &&& sent matches Some(d)
            &&& d.message.kind == OutboundKind::TaskAdded
            &&& d.message.task == Some(after.tasks.last())
            &&& d.message.tasks == after.tasks
            &&& distinct(d.recipients)
            &&& d.recipients.contains(channel)
            &&& forall|c: u32| s.channels.contains(c) ==> d.recipients.contains(c)
        }),
{
    lemma_fresh_id_is_unused(s.tasks, candidate);
    lemma_with_channel(s.channels, channel);
    let (after, sent) = outcome(s, channel, Some(CommandView::AddTask(text)), candidate);
    assert forall|i: int, j: int| 0 <= i < j < after.tasks.len() implies (
    #[trigger] after.tasks[i]).id != (#[trigger] after.tasks[j]).id by {
        if j == s.tasks.len() {
            assert(s.tasks[i].id != after.tasks[j].id);
        } else {
            assert(s.tasks[i].id != s.tasks[j].id);
        }
    }
    assert forall|i: int| 0 <= i < after.tasks.len() implies !is_blank(
        (#[trigger] after.tasks[i]).text,
    ) by {
        if i < s.tasks.len() {
            assert(!is_blank(s.tasks[i].text));
        }
    }
}

/// A task that is turned over over a channel is told to every connected
/// channel and to the requester, each once, with the tasks as they stand
/// after the change.
pub proof fn lemma_toggled_task_is_broadcast(
    s: StateView,
    channel: u32,
    id: Seq<char>,
    candidate: Seq<char>,
)
    requires
        s.wf(),
        has_id(s.tasks, id),
    ensures
        ({
            let (after, sent) = outcome(s, channel, Some(CommandView::ToggleTask(id)), candidate);
            &&& after.channels == s.channels
            &&& after.tasks == toggled(s.tasks, id)
            &&& sent matches Some(d)
            &&& d.message.kind == OutboundKind::TaskToggled
            &&& d.message.tasks == after.tasks
            &&& d.message.task matches Some(t)
            &&& t.id == id
            &&& t.completed == !s.tasks[index_of_id(s.tasks, id)].completed
            &&& distinct(d.recipients)
            &&& d.recipients.contains(channel)
            &&& forall|c: u32| s.channels.contains(c) ==> d.recipients.contains(c)
        }),
{
    lemma_with_channel(s.channels, channel);
}

/// Taking a channel in keeps the list without repetitions, keeps every
/// channel that was there, and has the new one in it.
pub proof fn lemma_with_channel(channels: Seq<u32>, channel: u32)
    requires
        distinct(channels),
    ensures
        distinct(with_channel(channels, channel)),
        with_channel(channels, channel).contains(channel),
        forall|c: u32| channels.contains(c) ==> with_channel(channels, channel).contains(c),
{
    let all = with_channel(channels, channel);
    if !channels.contains(channel) {
        assert(all[channels.len() as int] == channel);
        assert forall|c: u32| channels.contains(c) implies all.contains(c) by {
            let k = channels.index_of(c);
            assert(all[k] == c);
        }
        assert forall|i: int, j: int| 0 <= i < j < all.len() implies #[trigger] all[i]
            != #[trigger] all[j] by {
            if j == channels.len() {
                assert(channels.contains(channels[i]));
            } else {
                assert(channels[i] != channels[j]);
            }
        }
    }
}

/// Taking one channel out of a list without repetitions leaves a list
/// without repetitions that no longer holds the channel.
pub proof fn lemma_remove_distinct(channels: Seq<u32>, i: int)
    requires
        distinct(channels),
        0 <= i < channels.len(),
    ensures
        distinct(channels.remove(i)),
        !channels.remove(i).contains(channels[i]),
        channels.index_of(channels[i]) == i,
        channels.contains(channels[i]),
{
    let k = channels.index_of(channels[i]);
    assert(channels.contains(channels[i]));
    if k < i {
        assert(channels[k] != channels[i]);
    } else if i < k {
        assert(channels[i] != channels[k]);
    }
    let rest = channels.remove(i);
    assert forall|a: int, b: int| 0 <= a < b < rest.len() implies #[trigger] rest[a]
        != #[trigger] rest[b] by {
        let a0 = if a < i { a } else { a + 1 };
        let b0 = if b < i { b } else { b + 1 };
        assert(rest[a] == channels[a0]);
        assert(rest[b] == channels[b0]);
        assert(channels[a0] != channels[b0]);
    }
    assert forall|a: int| 0 <= a < rest.len() implies rest[a] != channels[i] by {
        let a0 = if a < i { a } else { a + 1 };
        assert(rest[a] == channels[a0]);
        if a0 < i {
            assert(channels[a0] != channels[i]);
        } else {
            assert(channels[i] != channels[a0]);
        }
    }
}

} // verus!
