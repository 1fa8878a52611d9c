use std::cell::Cell;
use std::rc::Rc;

use weechat::args::Args;
use weechat::commands::{
    Command, CommandCallback, CommandHookData, CommandRun, CommandRunCallback, CommandRunHookData,
    CommandRunRegistration,
};
use weechat::hook::{HostStep, RegistrationError};
use weechat::host::{Buffer, Disposition, Weechat, WEECHAT_RC_OK, WEECHAT_RC_OK_EAT};
use weechat::settings::CommandSettings;
use weechat::text::{join_templates, to_host_text};

struct Recorder {
    calls: Rc<Cell<u32>>,
    seen: Rc<std::cell::RefCell<Vec<String>>>,
}

impl CommandCallback for Recorder {
    fn callback(&mut self, _weechat: &Weechat, buffer: &Buffer, arguments: Args) {
        self.calls.set(self.calls.get() + 1);
        let mut seen = self.seen.borrow_mut();
        seen.clear();
        seen.push(format!("{}", buffer.ptr));
        seen.extend(arguments.into_vec());
    }
}

struct Interceptor {
    answer: Disposition,
    calls: Rc<Cell<u32>>,
}

impl CommandRunCallback for Interceptor {
    fn callback(&mut self, _weechat: &Weechat, _buffer: &Buffer, _command: String) -> Disposition {
        self.calls.set(self.calls.get() + 1);
        self.answer
    }
}

fn context() -> Weechat {
    Weechat::from_ptr(0x1000, 7)
}

fn recorder() -> (Recorder, Rc<Cell<u32>>, Rc<std::cell::RefCell<Vec<String>>>) {
    let calls = Rc::new(Cell::new(0));
    let seen = Rc::new(std::cell::RefCell::new(Vec::new()));
    (Recorder { calls: calls.clone(), seen: seen.clone() }, calls, seen)
}

fn strings(items: &[&str]) -> Vec<String> {
    items.iter().map(|s| s.to_string()).collect()
}

#[test]
fn arguments_split_in_order() {
    let args = Args::new(3, strings(&["cmd", "a", "b"]));
    assert_eq!(args.len(), 3);
    assert_eq!(args.get(0).map(|s| s.as_str()), Some("cmd"));
    assert_eq!(args.into_vec(), strings(&["cmd", "a", "b"]));
}

#[test]
fn arguments_follow_the_count() {
    assert_eq!(Args::new(2, strings(&["cmd", "a", "b"])).into_vec(), strings(&["cmd", "a"]));
    assert_eq!(Args::new(5, strings(&["cmd", "a"])).into_vec(), strings(&["cmd", "a"]));
    let none = Args::new(-1, strings(&["cmd"]));
    assert!(none.is_empty());
    assert_eq!(none.get(0), None);
}

#[test]
fn irc_completions_are_joined_in_order() {
    let settings = CommandSettings::new("irc")
        .description("IRC chat protocol command.")
        .add_completion("server |add|delete|list|listfull")
        .add_completion("connect");
    let d = settings.descriptor();
    assert_eq!(d.name, "irc");
    assert_eq!(d.description, "IRC chat protocol command.");
    assert_eq!(d.completion, "server |add|delete|list|listfull||connect");
    assert_eq!(d.arguments, "");
    assert_eq!(d.arguments_description, "");
}

#[test]
fn descriptor_joins_arguments() {
    let d = CommandSettings::new("irc")
        .add_argument("connect <server-name>")
        .add_argument("disconnect <server-name>")
        .add_argument("help")
        .arguments_description("server: List servers.")
        .descriptor();
    assert_eq!(d.arguments, "connect <server-name>||disconnect <server-name>||help");
    assert_eq!(d.arguments_description, "server: List servers.");
}

#[test]
fn descriptor_replaces_nul() {
    let d = CommandSettings::new("bad\0name").add_completion("a\0").descriptor();
    assert_eq!(d.name, "bad\u{FFFD}name");
    assert_eq!(d.completion, "a\u{FFFD}");
    assert_eq!(to_host_text("\0\0x"), "\u{FFFD}\u{FFFD}x");
    assert_eq!(to_host_text("é ok"), "é ok");
}

#[test]
fn join_of_none_and_one() {
    assert_eq!(join_templates(&Vec::new()), "");
    assert_eq!(join_templates(&strings(&["only"])), "only");
    assert_eq!(join_templates(&strings(&["", ""])), "||");
}

#[test]
fn thread_check() {
    let w = context();
    assert!(w.is_callback_thread(7));
    assert!(!w.is_callback_thread(8));
}

#[test]
fn null_hook_is_an_error_and_frees_the_state() {
    let (cb, calls, _) = recorder();
    let w = context();
    let data = Box::new(CommandHookData::new(cb, &w, 7));
    assert_eq!(Rc::strong_count(&calls), 2);
    let r = Command::new(0, data);
    assert!(matches!(r, Err(RegistrationError)));
    drop(r);
    assert_eq!(Rc::strong_count(&calls), 1);
}

#[test]
fn teardown_deregisters_once() {
    let (cb, calls, _) = recorder();
    let w = context();
    let data = Box::new(CommandHookData::new(cb, &w, 7));
    let command = match Command::new(0x2000, data) {
        Ok(c) => c,
        Err(_) => panic!("registration refused"),
    };
    assert_eq!(command.hook_ptr(), 0x2000);
    let t = command.teardown();
    assert_eq!(t.steps, vec![HostStep::Deregister { plugin: 0x1000, hook: 0x2000 }, HostStep::FreeState]);
    assert_eq!(Rc::strong_count(&calls), 2);
    drop(t.state);
    assert_eq!(Rc::strong_count(&calls), 1);
}

#[test]
fn registered_state_reaches_the_callback() {
    let (cb, calls, seen) = recorder();
    let w = context();
    let command = match Command::new(0x2000, Box::new(CommandHookData::new(cb, &w, 7))) {
        Ok(c) => c,
        Err(_) => panic!("registration refused"),
    };
    let mut t = command.teardown();
    assert_eq!(t.state.run(0x3000, 3, strings(&["cmd", "a", "b"])), WEECHAT_RC_OK);
    assert_eq!(t.state.run(0x3000, 1, strings(&["cmd"])), WEECHAT_RC_OK);
    assert_eq!(calls.get(), 2);
    assert_eq!(*seen.borrow(), strings(&["12288", "cmd"]));
}

#[test]
fn interceptor_codes() {
    assert_eq!(Disposition::Eat.code(), WEECHAT_RC_OK_EAT);
    assert_eq!(Disposition::Continue.code(), WEECHAT_RC_OK);
    assert_ne!(WEECHAT_RC_OK, WEECHAT_RC_OK_EAT);
    let w = context();
    for (answer, code) in [(Disposition::Eat, WEECHAT_RC_OK_EAT), (Disposition::Continue, WEECHAT_RC_OK)] {
        let calls = Rc::new(Cell::new(0));
        let mut data = CommandRunHookData::new(Interceptor { answer, calls: calls.clone() }, &w, 7);
        assert_eq!(data.run(0x3000, "/buffer 1".to_string()), code);
        assert_eq!(calls.get(), 1);
    }
}

#[test]
fn interceptor_registration() {
    let w = context();
    let calls = Rc::new(Cell::new(0));
    let data = Box::new(CommandRunHookData::new(Interceptor { answer: Disposition::Eat, calls: calls.clone() }, &w, 7));
    let r = CommandRun::new(0, data);
    assert!(r.is_err());
    drop(r);
    assert_eq!(Rc::strong_count(&calls), 1);
    let data = Box::new(CommandRunHookData::new(Interceptor { answer: Disposition::Eat, calls: calls.clone() }, &w, 7));
    let run = match CommandRun::new(0x4000, data) {
        Ok(c) => c,
        Err(_) => panic!("registration refused"),
    };
    assert_eq!(run.hook_ptr(), 0x4000);
    let mut t = run.teardown();
    assert_eq!(t.steps, vec![HostStep::Deregister { plugin: 0x1000, hook: 0x4000 }, HostStep::FreeState]);
    assert_eq!(t.state.run(1, "/x".to_string()), WEECHAT_RC_OK_EAT);
}

#[test]
fn prepared_command_carries_descriptor_and_state() {
    let (cb, calls, seen) = recorder();
    let w = context();
    let settings = CommandSettings::new("irc").add_completion("connect").add_completion("help");
    let mut reg = Command::prepare(&settings, cb, &w, 7);
    assert_eq!(reg.descriptor.name, "irc");
    assert_eq!(reg.descriptor.completion, "connect||help");
    assert_eq!(reg.state.run(5, 2, strings(&["irc", "connect"])), WEECHAT_RC_OK);
    assert_eq!(calls.get(), 1);
    assert_eq!(*seen.borrow(), strings(&["5", "irc", "connect"]));
}

#[test]
fn prepared_interceptor_pattern() {
    let w = context();
    let calls = Rc::new(Cell::new(0));
    let CommandRunRegistration { pattern, mut state } =
        CommandRun::prepare("2000|/buffer *", Interceptor { answer: Disposition::Continue, calls: calls.clone() }, &w, 7);
    assert_eq!(pattern, "2000|/buffer *");
    assert_eq!(state.run(1, "/buffer 2".to_string()), WEECHAT_RC_OK);
    let reg = CommandRun::prepare("a\0b", Interceptor { answer: Disposition::Eat, calls }, &w, 7);
    assert_eq!(reg.pattern, "a\u{FFFD}b");
}
