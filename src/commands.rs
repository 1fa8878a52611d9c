//! Commands and command interceptors: the callbacks, their state, and the
//! guards that keep a registration alive.

use vstd::prelude::*;

use crate::args::Args;
use crate::hook::{teardown_steps, Hook, HostStep, RegistrationError};
use crate::host::{Buffer, Disposition, Weechat, WEECHAT_RC_OK, WEECHAT_RC_OK_EAT};
use crate::settings::{descriptor_of, CommandDescriptor, CommandSettings};
use crate::text::{host_text, to_host_text};

verus! {

/// Callback of a command.
///
/// Implement it on a struct of your own to give the callback data of its own.
pub trait CommandCallback {
    /// Called each time the command runs, with the plugin context, the
    /// buffer that received the command, and the arguments, the command
    /// itself first.
    fn callback(&mut self, weechat: &Weechat, buffer: &Buffer, arguments: Args);
}

/// Callback of a command interceptor.
///
/// Implement it on a struct of your own to give the callback data of its own.
pub trait CommandRunCallback {
    /// Called each time a matching command runs, with the plugin context, the
    /// buffer that received it, and the whole command line; the result tells
    /// whether the command is eaten.
    fn callback(&mut self, weechat: &Weechat, buffer: &Buffer, command: String) -> Disposition;
}

/// State of a command registration: the user's callback and the plugin
/// context that the trampoline hands it.
pub struct CommandHookData<C> {
    callback: C,
    weechat: Weechat,
}

/// State of an interceptor registration: the user's callback and the plugin
/// context that the trampoline hands it.
pub struct CommandRunHookData<C> {
    callback: C,
    weechat: Weechat,
}

impl<C: CommandCallback> CommandHookData<C> {
    /// The plugin context the callback receives.
    pub closed spec fn weechat(&self) -> Weechat {
        self.weechat
    }

    /// The user's callback.
    pub closed spec fn callback(&self) -> C {
        self.callback
    }

    /// State for `callback`, made on the host's callback thread `current`:
    /// registration is refused on every other thread.
    pub fn new(callback: C, weechat: &Weechat, current: u64) -> (r: Self)
        requires
            current == weechat.callback_thread,
        ensures
            r.weechat() == *weechat,
            r.callback() == callback,
    {
        CommandHookData { callback, weechat: *weechat }
    }

    /// What the trampoline does for one call of the host: the buffer at
    /// `buffer` and the first `argc` strings of `argv` go to the callback;
    /// the host always hears that the command went well.
    pub fn run(&mut self, buffer: usize, argc: i32, argv: Vec<String>) -> (r: i32)
        ensures
            r == WEECHAT_RC_OK,
            final(self).weechat() == old(self).weechat(),
    {
        let weechat = self.weechat;
        let buffer = weechat.buffer_from_ptr(buffer);
        let arguments = Args::new(argc, argv);
        self.callback.callback(&weechat, &buffer, arguments);
        WEECHAT_RC_OK
    }
}

impl<C: CommandRunCallback> CommandRunHookData<C> {
    /// The plugin context the callback receives.
    pub closed spec fn weechat(&self) -> Weechat {
        self.weechat
    }

    /// The user's callback.
    pub closed spec fn callback(&self) -> C {
        self.callback
    }

    /// State for `callback`, made on the host's callback thread `current`:
    /// registration is refused on every other thread.
    pub fn new(callback: C, weechat: &Weechat, current: u64) -> (r: Self)
        requires
            current == weechat.callback_thread,
        ensures
            r.weechat() == *weechat,
            r.callback() == callback,
    {
        CommandRunHookData { callback, weechat: *weechat }
    }

    /// What the trampoline does for one call of the host: the buffer at
    /// `buffer` and the command line go to the callback, and its disposition
    /// goes back to the host as a status code.
    pub fn run(&mut self, buffer: usize, command: String) -> (r: i32)
        ensures
            r == WEECHAT_RC_OK || r == WEECHAT_RC_OK_EAT,
            final(self).weechat() == old(self).weechat(),
    {
        let weechat = self.weechat;
        let buffer = weechat.buffer_from_ptr(buffer);
        let disposition = self.callback.callback(&weechat, &buffer, command);
        disposition.code()
    }
}

/// A registered command; it stays registered until `teardown`.
pub struct Command<C> {
    hook: Hook,
    hook_data: Box<CommandHookData<C>>,
}

/// A registered command interceptor; it stays registered until `teardown`.
pub struct CommandRun<C> {
    hook: Hook,
    hook_data: Box<CommandRunHookData<C>>,
}

/// The end of a registration: the calls to make in order, and the callback
/// state, to be released at the `FreeState` step.
pub struct Teardown<D> {
    pub steps: Vec<HostStep>,
    pub state: Box<D>,
}

/// What the host receives to register a command: its descriptor, and the
/// callback state whose address becomes the opaque data of the hook.
pub struct CommandRegistration<C> {
    pub descriptor: CommandDescriptor,
    pub state: Box<CommandHookData<C>>,
}

/// What the host receives to register an interceptor: its pattern in host
/// text, and the callback state whose address becomes the opaque data of the
/// hook.
pub struct CommandRunRegistration<C> {
    pub pattern: String,
    pub state: Box<CommandRunHookData<C>>,
}

impl<C: CommandCallback> Command<C> {
    /// Prepares the registration of the command `settings` with `callback`,
    /// on the host's callback thread `current`.
    pub fn prepare(settings: &CommandSettings, callback: C, weechat: &Weechat, current: u64) -> (r: CommandRegistration<C>)
        requires
            current == weechat.callback_thread,
        ensures
            r.descriptor.fields() == descriptor_of(settings@),
            r.state.weechat() == *weechat,
            r.state.callback() == callback,
    {
        let descriptor = settings.descriptor();
        let state = Box::new(CommandHookData::new(callback, weechat, current));
        CommandRegistration { descriptor, state }
    }

    /// The host's identity of the registration.
    pub closed spec fn identity(&self) -> usize {
        self.hook.identity()
    }

    /// The plugin the command belongs to.
    pub closed spec fn plugin(&self) -> usize {
        self.hook.plugin()
    }

    /// The callback state of the command.
    pub closed spec fn hook_data(&self) -> CommandHookData<C> {
        *self.hook_data
    }

    /// Takes the host's answer `hook_ptr` to registering the state
    /// `hook_data`. A null answer is an error, and the state is released
    /// with it; otherwise the command owns both the hook and the state.
    pub fn new(hook_ptr: usize, hook_data: Box<CommandHookData<C>>) -> (r: Result<Self, RegistrationError>)
        ensures
            r is Err <==> hook_ptr == 0,
            r matches Ok(c) ==> c.identity() == hook_ptr && c.plugin() == hook_data.weechat().ptr
                && c.hook_data() == *hook_data,
    {
        match Hook::from_host(hook_ptr, hook_data.weechat.ptr) {
            None => Err(RegistrationError),
            Some(hook) => Ok(Command { hook, hook_data }),
        }
    }

    /// The host's identity of the registration.
    pub fn hook_ptr(&self) -> (r: usize)
        ensures
            r == self.identity(),
    {
        self.hook.ptr()
    }

    /// Ends the registration: one deregistration of this hook, then the
    /// release of its state.
    pub fn teardown(self) -> (r: Teardown<CommandHookData<C>>)
        ensures
            r.steps@ == teardown_steps(self.plugin(), self.identity()),
            *r.state == self.hook_data(),
    {
        let Command { hook, hook_data } = self;
        Teardown { steps: hook.teardown(), state: hook_data }
    }
}

impl<C: CommandRunCallback> CommandRun<C> {
    /// Prepares the interception of the commands that `pattern` matches with
    /// `callback`, on the host's callback thread `current`.
    pub fn prepare(pattern: &str, callback: C, weechat: &Weechat, current: u64) -> (r: CommandRunRegistration<C>)
        requires
            current == weechat.callback_thread,
        ensures
            r.pattern@ == host_text(pattern@),
            r.state.weechat() == *weechat,
            r.state.callback() == callback,
    {
        let pattern = to_host_text(pattern);
        let state = Box::new(CommandRunHookData::new(callback, weechat, current));
        CommandRunRegistration { pattern, state }
    }

    /// The host's identity of the registration.
    pub closed spec fn identity(&self) -> usize {
        self.hook.identity()
    }

    /// The plugin the interceptor belongs to.
    pub closed spec fn plugin(&self) -> usize {
        self.hook.plugin()
    }

    /// The callback state of the interceptor.
    pub closed spec fn hook_data(&self) -> CommandRunHookData<C> {
        *self.hook_data
    }

    /// Takes the host's answer `hook_ptr` to registering the state
    /// `hook_data`. A null answer is an error, and the state is released
    /// with it; otherwise the interceptor owns both the hook and the state.
    pub fn new(hook_ptr: usize, hook_data: Box<CommandRunHookData<C>>) -> (r: Result<Self, RegistrationError>)
        ensures
            r is Err <==> hook_ptr == 0,
            r matches Ok(c) ==> c.identity() == hook_ptr && c.plugin() == hook_data.weechat().ptr
                && c.hook_data() == *hook_data,
    {
        match Hook::from_host(hook_ptr, hook_data.weechat.ptr) {
            None => Err(RegistrationError),
            Some(hook) => Ok(CommandRun { hook, hook_data }),
        }
    }

    /// The host's identity of the registration.
    pub fn hook_ptr(&self) -> (r: usize)
        ensures
            r == self.identity(),
    {
        self.hook.ptr()
    }

    /// Ends the registration: one deregistration of this hook, then the
    /// release of its state.
    pub fn teardown(self) -> (r: Teardown<CommandRunHookData<C>>)
        ensures
            r.steps@ == teardown_steps(self.plugin(), self.identity()),
            *r.state == self.hook_data(),
    {
        let CommandRun { hook, hook_data } = self;
        Teardown { steps: hook.teardown(), state: hook_data }
    }
}

} // verus!
