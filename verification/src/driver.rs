//! The run as a machine: it is told what happened and answers what to do
//! next. The container is provided first; then the inputs are taken in the
//! order given, each one to its end before the next, and each leaves exactly
//! one line of output. The first failure that is not a refused fetch ends
//! the run.

use crate::context::{check_time_partition, RunContext};
use crate::error::ErrorKind;
use crate::loader::{
    load_local, load_remote, local_item, remote_item, resolve, resolves_to, FetchResponse, Source,
    UploadData, UploadItem,
};
use crate::provision::{
    ensure_container_exists, is_settled_by, provision_for, settled_by, Provision, PublicAccess,
};
use crate::source::SourceKind;
use crate::upload::{is_upload_of, key_of, plan_upload, UploadRequest};
use crate::weburl::{build_url, check_host, container_url, public_url};
use vstd::prelude::*;

verus! {

/// What the run is told.
#[derive(Debug)]
pub enum Event {
    /// The run begins.
    Started,
    /// The container was looked for, and was or was not found.
    ContainerFound(bool),
    /// The container was created.
    ContainerCreated,
    /// The service refused to create the container, with this error code.
    CreationRefused(String),
    /// The file was read, and this is its content.
    FileRead(Vec<u8>),
    /// The address was fetched, and this is the response.
    Fetched(FetchResponse),
    /// The object was written.
    Uploaded,
    /// The line was put out.
    Printed,
    /// What was asked for could not be done.
    Failed,
}

/// What the run asks for.
#[derive(Debug)]
pub enum Action {
    /// Look whether the container exists.
    CheckContainer,
    /// Create the container with the given access.
    CreateContainer(PublicAccess),
    /// Read the file at this path.
    ReadFile(String),
    /// Fetch this address.
    Fetch(String),
    /// Write this object.
    Upload(UploadRequest),
    /// Put out this line.
    Print(String),
    /// Nothing is left to do.
    Finish,
    /// The run has failed.
    Abort(ErrorKind),
    /// The event was not awaited: nothing changed.
    Ignore,
}

/// Where the run stands.
#[derive(Debug)]
pub enum Phase {
    /// Not begun.
    Idle,
    /// Waiting to learn whether the container exists.
    CheckingContainer,
    /// Waiting for the container to be created.
    CreatingContainer,
    /// Waiting for the content of the current input's file.
    Reading(Source),
    /// Waiting for the response to the current input's fetch.
    Fetching(Source),
    /// Waiting for the current input's object to be written; this is the
    /// address under which it will be reached.
    Uploading(String),
    /// Waiting for the current input's line to be put out.
    Printing,
    /// All inputs are done.
    Finished,
    /// The run has failed.
    Aborted(ErrorKind),
}

/// The model of a run.
pub struct RunState {
    /// The context shared by all inputs.
    pub context: RunContext,
    /// The inputs, in the order given.
    pub inputs: Seq<Seq<char>>,
    /// How many inputs are done: as many lines have been put out.
    pub cursor: nat,
    /// Where the run stands.
    pub phase: Phase,
}

/// A run.
#[derive(Debug)]
pub struct Driver {
    context: RunContext,
    inputs: Vec<String>,
    cursor: usize,
    phase: Phase,
}

impl View for Driver {
    type V = RunState;

    closed spec fn view(&self) -> RunState {
        RunState {
            context: self.context,
            inputs: self.inputs.deep_view(),
            cursor: self.cursor as nat,
            phase: self.phase,
        }
    }
}

impl RunState {
    /// The run of the inputs in the context that has done `cursor` of them
    /// and stands at `phase`.
    pub open spec fn at(context: RunContext, inputs: Seq<Seq<char>>, cursor: nat, phase: Phase) -> RunState {
        RunState { context, inputs, cursor, phase }
    }

    /// A run is well formed when its context is, its container has an
    /// address under its host, it has done no more inputs than there are, it
    /// is busy with an input only while one is left, the source it waits for
    /// is well formed, and it has finished only when no input is left.
    pub open spec fn wf(self) -> bool {
        &&& self.context.wf()
        &&& container_url(self.context.host, self.context.container_name@) is Some
        &&& self.cursor <= self.inputs.len()
        &&& match self.phase {
            Phase::Reading(source) => source@.wf() && self.cursor < self.inputs.len(),
            Phase::Fetching(source) => source@.wf() && self.cursor < self.inputs.len(),
            Phase::Uploading(_) => self.cursor < self.inputs.len(),
            Phase::Printing => self.cursor < self.inputs.len(),
            Phase::Finished => self.cursor == self.inputs.len(),
            _ => true,
        }
    }

    /// Whether the run has turned to its next input, or to its end: with no
    /// input left it has finished; otherwise the input is resolved, and the
    /// run asks for the file to be read or the address to be fetched, or
    /// fails as the resolution did.
    pub open spec fn turned_to_input(self, post: RunState, action: Action) -> bool {
        if self.cursor >= self.inputs.len() {
            post.phase is Finished && action is Finish
        } else {
            match post.phase {
                Phase::Reading(source) => {
                    &&& source.kind == SourceKind::Local
                    &&& resolves_to(self.inputs[self.cursor as int], Ok(source))
                    &&& action matches Action::ReadFile(path)
                    &&& path@ == source.location@
                },
                Phase::Fetching(source) => {
                    &&& source.kind == SourceKind::Remote
                    &&& resolves_to(self.inputs[self.cursor as int], Ok(source))
                    &&& action matches Action::Fetch(address)
                    &&& address@ == source.location@
                },
                Phase::Aborted(e) => {
                    &&& resolves_to(self.inputs[self.cursor as int], Err(e))
                    &&& action == Action::Abort(e)
                },
                _ => false,
            }
        }
    }

    /// The address under which the item's object will be reached, if it has
    /// one.
    pub open spec fn address_of(self, item: UploadItem) -> Option<Seq<char>> {
        public_url(
            self.context.host,
            self.context.container_name@,
            key_of(self.context.run_timestamp@, item),
        )
    }

    /// Whether the run has turned to the item: it asks for the item to be
    /// written and waits for that, keeping the address to put out; or it
    /// fails, before anything is written, where the item's object has no
    /// address.
    pub open spec fn turned_to_item(self, post: RunState, action: Action, item: UploadItem) -> bool {
        match self.address_of(item) {
            Some(address) => {
                &&& action matches Action::Upload(request)
                &&& is_upload_of(
                    request,
                    self.context.container_name@,
                    self.context.run_timestamp@,
                    item,
                )
                &&& post.phase matches Phase::Uploading(line)
                &&& line@ == address
            },
            None => self.failed_with(post, action, ErrorKind::ConfigurationError),
        }
    }

    /// Whether the run has failed with the given error.
    pub open spec fn failed_with(self, post: RunState, action: Action, e: ErrorKind) -> bool {
        post.phase == Phase::Aborted(e) && action == Action::Abort(e)
    }

    /// Whether the run asks for the given line, and waits for it to be put
    /// out.
    pub open spec fn turned_to_line(self, post: RunState, action: Action, line: Seq<char>) -> bool {
        &&& post.phase is Printing
        &&& action matches Action::Print(text)
        &&& text@ == line
    }

    /// Whether `post` and `action` are what the run makes of `event`.
    pub open spec fn steps_to(self, event: Event, post: RunState, action: Action) -> bool {
        &&& post.context == self.context
        &&& post.inputs == self.inputs
        &&& post.cursor == if self.phase is Printing && event is Printed {
            self.cursor + 1
        } else {
            self.cursor
        }
        &&& match (self.phase, event) {
            (Phase::Idle, Event::Started) => post.phase is CheckingContainer
                && action is CheckContainer,
            (Phase::CheckingContainer, Event::ContainerFound(found)) => match provision_for(found) {
                Provision::Proceed => self.turned_to_input(post, action),
                Provision::Create(access) => post.phase is CreatingContainer && action
                    == Action::CreateContainer(access),
            },
            (Phase::CheckingContainer, Event::Failed) => self.failed_with(
                post,
                action,
                ErrorKind::ProvisioningError,
            ),
            (Phase::CreatingContainer, Event::ContainerCreated) => self.turned_to_input(
                post,
                action,
            ),
            (Phase::CreatingContainer, Event::CreationRefused(code)) => if settled_by(code@) {
                self.turned_to_input(post, action)
            } else {
                self.failed_with(post, action, ErrorKind::ProvisioningError)
            },
            (Phase::CreatingContainer, Event::Failed) => self.failed_with(
                post,
                action,
                ErrorKind::ProvisioningError,
            ),
            (Phase::Reading(source), Event::FileRead(bytes)) => self.turned_to_item(
                post,
                action,
                local_item(source@, bytes@),
            ),
            (Phase::Reading(_), Event::Failed) => self.failed_with(post, action, ErrorKind::IoError),
            (Phase::Fetching(source), Event::Fetched(response)) => match remote_item(
                source@,
                response,
            ) {
                Some(item) => self.turned_to_item(post, action, item),
                None => self.turned_to_line(post, action, Seq::<char>::empty()),
            },
            (Phase::Fetching(_), Event::Failed) => self.failed_with(post, action, ErrorKind::IoError),
            (Phase::Uploading(line), Event::Uploaded) => self.turned_to_line(post, action, line@),
            (Phase::Uploading(_), Event::Failed) => self.failed_with(
                post,
                action,
                ErrorKind::UploadError,
            ),
            (Phase::Printing, Event::Printed) => RunState { cursor: self.cursor + 1, ..self }.turned_to_input(
                post,
                action,
            ),
            (Phase::Printing, Event::Failed) => self.failed_with(post, action, ErrorKind::IoError),
            _ => post.phase == self.phase && action is Ignore,
        }
    }
}

/// The discipline of a run, step by step. An input is done exactly when its
/// line has been put out, and a line is asked for only to end the current
/// input: so the lines are as many as the inputs done, in their order. The
/// container is looked for only at the beginning, and created only where it
/// was not found. An object is written only for an input whose file was read
/// or whose fetch succeeded. A run that has finished or failed stays so.
pub proof fn lemma_step_discipline(pre: RunState, event: Event, post: RunState, action: Action)
    requires
        pre.steps_to(event, post, action),
    ensures
        post.inputs == pre.inputs,
        post.cursor == pre.cursor + 1 <==> pre.phase is Printing && event is Printed,
        post.cursor != pre.cursor + 1 ==> post.cursor == pre.cursor,
        action is Print ==> post.phase is Printing && (pre.phase is Fetching || pre.phase is Uploading),
        action is CheckContainer ==> pre.phase is Idle,
        action is CreateContainer ==> pre.phase is CheckingContainer && event == Event::ContainerFound(
            false,
        ),
        action is Upload ==> (pre.phase is Reading && event is FileRead) || (pre.phase matches Phase::Fetching(
            source,
        ) && event matches Event::Fetched(response) && remote_item(source@, response) is Some),
        pre.phase is Finished || pre.phase is Aborted ==> post.phase == pre.phase && action is Ignore,
        action is Abort ==> post.phase is Aborted,
{
}

/// Providing a container that exists creates nothing and fails nothing,
/// however often it is done: of two runs that learn, one after the other,
/// that their container exists, neither asks for it to be created and
/// neither fails for want of it; each turns to its inputs.
pub proof fn lemma_existing_container_kept(
    first: RunState,
    first_post: RunState,
    first_action: Action,
    second: RunState,
    second_post: RunState,
    second_action: Action,
)
    requires
        first.phase is CheckingContainer,
        second.phase is CheckingContainer,
        first.steps_to(Event::ContainerFound(true), first_post, first_action),
        second.steps_to(Event::ContainerFound(true), second_post, second_action),
    ensures
        !(first_action is CreateContainer),
        !(second_action is CreateContainer),
        first_action != Action::Abort(ErrorKind::ProvisioningError),
        second_action != Action::Abort(ErrorKind::ProvisioningError),
        first.turned_to_input(first_post, first_action),
        second.turned_to_input(second_post, second_action),
{
}

impl Driver {
    /// Every run is well formed.
    #[verifier::type_invariant]
    spec fn well_formed(self) -> bool {
        self@.wf()
    }

    /// Makes a run of the inputs in the context. A context whose time
    /// partition is none, or whose container has no address under its host,
    /// is refused as unusable configuration, before anything is done.
    pub fn new(context: RunContext, inputs: Vec<String>) -> (r: Result<Driver, ErrorKind>)
        ensures
            match r {
                Ok(driver) => {
                    &&& context.wf()
                    &&& container_url(context.host, context.container_name@) is Some
                    &&& driver@.wf()
                    &&& driver@.context == context
                    &&& driver@.inputs == inputs.deep_view()
                    &&& driver@.cursor == 0
                    &&& driver@.phase is Idle
                },
                Err(e) => e == ErrorKind::ConfigurationError && !(context.wf() && container_url(
                    context.host,
                    context.container_name@,
                ) is Some),
            },
    {
        if check_time_partition(context.run_timestamp.as_str()) && check_host(
            &context.host,
            context.container_name.as_str(),
        ) {
            Ok(Driver { context, inputs, cursor: 0, phase: Phase::Idle })
        } else {
            Err(ErrorKind::ConfigurationError)
        }
    }

    /// How many inputs are done.
    pub fn done(&self) -> (count: usize)
        ensures
            count == self@.cursor,
    {
        self.cursor
    }

    /// Whether nothing is left to do, be it that all inputs are done or that
    /// the run has failed.
    pub fn is_over(&self) -> (over: bool)
        ensures
            over == (self@.phase is Finished || self@.phase is Aborted),
    {
        match self.phase {
            Phase::Finished => true,
            Phase::Aborted(_) => true,
            _ => false,
        }
    }

    /// Turns to the input at `cursor`, or to the end where none is left.
    fn turn_to_input(context: RunContext, inputs: Vec<String>, cursor: usize) -> (r: (Driver, Action))
        requires
            context.wf(),
            container_url(context.host, context.container_name@) is Some,
            cursor <= inputs.len(),
        ensures
            r.0@.context == context,
            r.0@.inputs == inputs.deep_view(),
            r.0@.cursor == cursor,
            r.0@.wf(),
            RunState::at(context, inputs.deep_view(), cursor as nat, Phase::Idle).turned_to_input(
                r.0@,
                r.1,
            ),
    {
        if cursor >= inputs.len() {
            return (Driver { context, inputs, cursor, phase: Phase::Finished }, Action::Finish);
        }
        assert(inputs.deep_view()[cursor as int] == inputs@[cursor as int]@);
        let token = inputs[cursor].clone();
        match resolve(token) {
            Ok(source) => {
                let location = source.location.clone();
                match source.kind {
                    SourceKind::Local => (
                        Driver { context, inputs, cursor, phase: Phase::Reading(source) },
                        Action::ReadFile(location),
                    ),
                    SourceKind::Remote => (
                        Driver { context, inputs, cursor, phase: Phase::Fetching(source) },
                        Action::Fetch(location),
                    ),
                }
            },
            Err(e) => (
                Driver { context, inputs, cursor, phase: Phase::Aborted(e) },
                Action::Abort(e),
            ),
        }
    }

    /// Takes an event and answers what to do next. An event that the run
    /// does not await changes nothing.
    pub fn step(self, event: Event) -> (r: (Driver, Action))
        ensures
            self@.wf(),
            r.0@.wf(),
            self@.steps_to(event, r.0@, r.1),
    {
        proof {
            use_type_invariant(&self);
        }
        let Driver { context, inputs, cursor, phase } = self;
        assert(inputs.deep_view().len() == inputs.len());
        match (phase, event) {
            (Phase::Idle, Event::Started) => (
                Driver { context, inputs, cursor, phase: Phase::CheckingContainer },
                Action::CheckContainer,
            ),
            (Phase::CheckingContainer, Event::ContainerFound(found)) => {
                match ensure_container_exists(found) {
                    Provision::Proceed => Driver::turn_to_input(context, inputs, cursor),
                    Provision::Create(access) => (
                        Driver { context, inputs, cursor, phase: Phase::CreatingContainer },
                        Action::CreateContainer(access),
                    ),
                }
            },
            (Phase::CheckingContainer, Event::Failed) => Driver::fail(
                context,
                inputs,
                cursor,
                ErrorKind::ProvisioningError,
            ),
            (Phase::CreatingContainer, Event::ContainerCreated) => Driver::turn_to_input(
                context,
                inputs,
                cursor,
            ),
            (Phase::CreatingContainer, Event::CreationRefused(code)) => {
                if is_settled_by(code.as_str()) {
                    Driver::turn_to_input(context, inputs, cursor)
                } else {
                    Driver::fail(context, inputs, cursor, ErrorKind::ProvisioningError)
                }
            },
            (Phase::CreatingContainer, Event::Failed) => Driver::fail(
                context,
                inputs,
                cursor,
                ErrorKind::ProvisioningError,
            ),
            (Phase::Reading(source), Event::FileRead(bytes)) => {
                let item = load_local(source, bytes);
                Driver::turn_to_item(context, inputs, cursor, item)
            },
            (Phase::Reading(_), Event::Failed) => Driver::fail(
                context,
                inputs,
                cursor,
                ErrorKind::IoError,
            ),
            (Phase::Fetching(source), Event::Fetched(response)) => {
                match load_remote(source, response) {
                    Some(item) => Driver::turn_to_item(context, inputs, cursor, item),
                    None => (
                        Driver { context, inputs, cursor, phase: Phase::Printing },
                        Action::Print(String::new()),
                    ),
                }
            },
            (Phase::Fetching(_), Event::Failed) => Driver::fail(
                context,
                inputs,
                cursor,
                ErrorKind::IoError,
            ),
            (Phase::Uploading(line), Event::Uploaded) => (
                Driver { context, inputs, cursor, phase: Phase::Printing },
                Action::Print(line),
            ),
            (Phase::Uploading(_), Event::Failed) => Driver::fail(
                context,
                inputs,
                cursor,
                ErrorKind::UploadError,
            ),
            (Phase::Printing, Event::Printed) => Driver::turn_to_input(context, inputs, cursor + 1),
            (Phase::Printing, Event::Failed) => Driver::fail(
                context,
                inputs,
                cursor,
                ErrorKind::IoError,
            ),
            (phase, _) => (Driver { context, inputs, cursor, phase }, Action::Ignore),
        }
    }

    /// Ends the run with a failure.
    fn fail(context: RunContext, inputs: Vec<String>, cursor: usize, e: ErrorKind) -> (r: (
        Driver,
        Action,
    ))
        requires
            context.wf(),
            container_url(context.host, context.container_name@) is Some,
            cursor <= inputs.len(),
        ensures
            r.0@ == RunState::at(context, inputs.deep_view(), cursor as nat, Phase::Aborted(e)),
            r.1 == Action::Abort(e),
    {
        (Driver { context, inputs, cursor, phase: Phase::Aborted(e) }, Action::Abort(e))
    }

    /// Plans the write of the current input's item and waits for it, or
    /// fails where the item's object has no address.
    fn turn_to_item(context: RunContext, inputs: Vec<String>, cursor: usize, item: UploadData) -> (r: (
        Driver,
        Action,
    ))
        requires
            context.wf(),
            container_url(context.host, context.container_name@) is Some,
            cursor < inputs.len(),
        ensures
            r.0@.context == context,
            r.0@.inputs == inputs.deep_view(),
            r.0@.cursor == cursor,
            r.0@.wf(),
            RunState::at(context, inputs.deep_view(), cursor as nat, Phase::Idle).turned_to_item(
                r.0@,
                r.1,
                item@,
            ),
    {
        let request = plan_upload(&context, item);
        match build_url(request.key.as_str(), context.container_name.as_str(), &context) {
            Ok(address) => (
                Driver { context, inputs, cursor, phase: Phase::Uploading(address) },
                Action::Upload(request),
            ),
            Err(e) => Driver::fail(context, inputs, cursor, e),
        }
    }
}

} // verus!
