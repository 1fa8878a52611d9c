//! Description of a command that is to be created.

use vstd::prelude::*;

use crate::text::{host_text, join_templates, joined, separator_spec, to_host_text, views};

verus! {

/// Description for a new command that should be created.
///
/// The fields accept the string formats of the host's command API.
pub struct CommandSettings {
    /// Name of the command.
    name: String,
    /// Description of the command (shown with `/help command`).
    description: String,
    /// Argument templates of the command (shown with `/help command`).
    arguments: Vec<String>,
    /// Description of the arguments (shown with `/help command`).
    arguments_description: String,
    /// Completion templates of the command.
    completion: Vec<String>,
}

/// What a `CommandSettings` describes.
pub struct CommandSettingsView {
    pub name: Seq<char>,
    pub description: Seq<char>,
    pub arguments: Seq<Seq<char>>,
    pub arguments_description: Seq<char>,
    pub completion: Seq<Seq<char>>,
}

impl View for CommandSettings {
    type V = CommandSettingsView;

    closed spec fn view(&self) -> CommandSettingsView {
        CommandSettingsView {
            name: self.name@,
            description: self.description@,
            arguments: views(self.arguments@),
            arguments_description: self.arguments_description@,
            completion: views(self.completion@),
        }
    }
}

/// The strings handed to the host to register a command, each in the host's
/// text form.
pub struct CommandDescriptor {
    pub name: String,
    pub description: String,
    pub arguments: String,
    pub arguments_description: String,
    pub completion: String,
}

/// The descriptor that the host receives for the settings `s`.
pub open spec fn descriptor_of(s: CommandSettingsView) -> (Seq<char>, Seq<char>, Seq<char>, Seq<char>, Seq<char>) {
    (
        host_text(s.name),
        host_text(s.description),
        host_text(joined(s.arguments, separator_spec())),
        host_text(s.arguments_description),
        host_text(joined(s.completion, separator_spec())),
    )
}

impl CommandDescriptor {
    /// The five strings of the descriptor, in the order the host takes them.
    pub open spec fn fields(&self) -> (Seq<char>, Seq<char>, Seq<char>, Seq<char>, Seq<char>) {
        (self.name@, self.description@, self.arguments@, self.arguments_description@, self.completion@)
    }
}

impl CommandSettings {
    /// Creates settings for a command named `name`, with every other field
    /// empty.
    pub fn new(name: &str) -> (r: Self)
        ensures
            r@ == (CommandSettingsView {
                name: name@,
                description: Seq::empty(),
                arguments: Seq::empty(),
                arguments_description: Seq::empty(),
                completion: Seq::empty(),
            }),
    {
        let r = CommandSettings {
            name: String::from_str(name),
            description: String::new(),
            arguments: Vec::new(),
            arguments_description: String::new(),
            completion: Vec::new(),
        };
        assert(views(r.arguments@) =~= Seq::empty());
        assert(views(r.completion@) =~= Seq::empty());
        r
    }

    /// Sets the description of the command.
    pub fn description(self, description: &str) -> (r: Self)
        ensures
            r@ == (CommandSettingsView { description: description@, ..self@ }),
    {
        let mut s = self;
        s.description = String::from_str(description);
        s
    }

    /// Adds an argument template; templates keep the order in which they
    /// were added.
    pub fn add_argument(self, argument: &str) -> (r: Self)
        ensures
            r@ == (CommandSettingsView { arguments: self@.arguments.push(argument@), ..self@ }),
    {
        let mut s = self;
        let ghost before = s.arguments@;
        s.arguments.push(String::from_str(argument));
        assert(views(s.arguments@) =~= views(before).push(argument@));
        s
    }

    /// Sets the description of the arguments.
    pub fn arguments_description(self, description: &str) -> (r: Self)
        ensures
            r@ == (CommandSettingsView { arguments_description: description@, ..self@ }),
    {
        let mut s = self;
        s.arguments_description = String::from_str(description);
        s
    }

    /// Adds a completion template; templates keep the order in which they
    /// were added.
    pub fn add_completion(self, completion: &str) -> (r: Self)
        ensures
            r@ == (CommandSettingsView { completion: self@.completion.push(completion@), ..self@ }),
    {
        let mut s = self;
        let ghost before = s.completion@;
        s.completion.push(String::from_str(completion));
        assert(views(s.completion@) =~= views(before).push(completion@));
        s
    }

    /// The strings that register this command with the host: the templates
    /// joined with the host's separator, every NUL replaced.
    pub fn descriptor(&self) -> (r: CommandDescriptor)
        ensures
            r.fields() == descriptor_of(self@),
    {
        let arguments = join_templates(&self.arguments);
        let completion = join_templates(&self.completion);
        CommandDescriptor {
            name: to_host_text(self.name.as_str()),
            description: to_host_text(self.description.as_str()),
            arguments: to_host_text(arguments.as_str()),
            arguments_description: to_host_text(self.arguments_description.as_str()),
            completion: to_host_text(completion.as_str()),
        }
    }
}

} // verus!
