//! The chat session: its state, the slash commands that edit the model
//! registry, and what a finished save does to the session.
use vstd::prelude::*;

use crate::config::{Config, ConfigView, ModelConfig, ModelView, Provider, default_base_url,
    opt_view, listing};
use crate::layout::{ScreenAreas, areas_fit, screen_split, down, inside, is_inside, screen_areas, top_line,
    top_line_of, up, wrapped_line_count, wrapped_lines};
use crate::text::{insert_char_at, joined, lowercase, remove_char_at, same_text, split_words,
    starts_with, to_lowercase, views, words};

verus! {

/// One chat message.
#[derive(Debug)]
pub struct Message {
    pub role: String,
    pub content: String,
}

#[verifier::ext_equal]
pub struct MessageView {
    pub role: Seq<char>,
    pub content: Seq<char>,
}

impl View for Message {
    type V = MessageView;

    open spec fn view(&self) -> MessageView {
        MessageView { role: self.role@, content: self.content@ }
    }
}

impl Clone for Message {
    fn clone(&self) -> (r: Self)
        ensures
            r == *self,
    {
        Message { role: self.role.clone(), content: self.content.clone() }
    }
}

pub open spec fn message_views(v: Seq<Message>) -> Seq<MessageView> {
    v.map_values(|m: Message| m@)
}

/// A registry change that waits for the configuration to be written:
/// what to report and which model to select once the write succeeds.
pub struct PendingSave {
    pub on_success: String,
    pub select: Option<String>,
}

#[verifier::ext_equal]
pub struct SaveView {
    pub on_success: Seq<char>,
    pub select: Option<Seq<char>>,
}

impl View for PendingSave {
    type V = SaveView;

    open spec fn view(&self) -> SaveView {
        SaveView { on_success: self.on_success@, select: opt_view(self.select) }
    }
}

/// What a slash command asks of its caller.
pub enum CommandOutcome {
    /// Nothing more to do.
    Done,
    /// Write the configuration, then report the write with `finish_save`.
    Save(PendingSave),
}

impl View for CommandOutcome {
    type V = Option<SaveView>;

    open spec fn view(&self) -> Option<SaveView> {
        match self {
            CommandOutcome::Done => None,
            CommandOutcome::Save(p) => Some(p@),
        }
    }
}

/// The session as plain values.
#[verifier::ext_equal]
pub struct AppView {
    pub config: ConfigView,
    pub messages: Seq<MessageView>,
    pub input: Seq<char>,
    pub status: Seq<char>,
    pub is_loading: bool,
    pub chat_scroll: u16,
    pub cursor: nat,
    pub show_help: bool,
    pub help_scroll: u16,
}

/// The state of the chat client between two events.
pub struct App {
    config: Config,
    messages: Vec<Message>,
    input: String,
    status_message: String,
    is_loading: bool,
    chat_scroll: u16,
    cursor_pos: usize,
    show_help: bool,
    help_scroll: u16,
}

impl View for App {
    type V = AppView;

    closed spec fn view(&self) -> AppView {
        AppView {
            config: self.config@,
            messages: message_views(self.messages@),
            input: self.input@,
            status: self.status_message@,
            is_loading: self.is_loading,
            chat_scroll: self.chat_scroll,
            cursor: self.cursor_pos as nat,
            show_help: self.show_help,
            help_scroll: self.help_scroll,
        }
    }
}

/// The provider a lowercased provider word stands for.
pub open spec fn provider_named(word: Seq<char>) -> Option<Provider> {
    if word == "gemini"@ {
        Some(Provider::Gemini)
    } else if word == "openai"@ || word == "groq"@ || word == "ollama"@ {
        Some(Provider::OpenAICompat)
    } else {
        None
    }
}

pub fn provider_from_word(word: &str) -> (r: Option<Provider>)
    ensures
        r == provider_named(word@),
{
    if same_text(word, "gemini") {
        Some(Provider::Gemini)
    } else if same_text(word, "openai") || same_text(word, "groq") || same_text(word, "ollama") {
        Some(Provider::OpenAICompat)
    } else {
        None
    }
}

/// The session with its input line emptied; the cursor stays where it was.
pub open spec fn emptied(a: AppView) -> AppView {
    AppView { input: Seq::empty(), ..a }
}

/// The session with its input line emptied and the cursor at its start.
pub open spec fn cleared(a: AppView) -> AppView {
    AppView { input: Seq::empty(), cursor: 0, ..a }
}

/// The session with a new status line.
pub open spec fn with_status(a: AppView, status: Seq<char>) -> AppView {
    AppView { status, ..a }
}

/// The session with a new registry.
pub open spec fn with_config(a: AppView, config: ConfigView) -> AppView {
    AppView { config, ..a }
}

pub open spec fn not_found(name: Seq<char>) -> Seq<char> {
    "Model "@ + name + " not found."@
}

pub open spec fn switched_to(name: Seq<char>) -> Seq<char> {
    "Switched to model: "@ + name
}

/// `/model <provider> <name> <api_key> [base_url]` with its words `w`
/// (at least four) and `word`, the provider word lowercased.
pub open spec fn model_added(
    a: AppView,
    word: Seq<char>,
    w: Seq<Seq<char>>,
    post: AppView,
    out: Option<SaveView>,
) -> bool {
        match provider_named(word) {
            None => out is None && post == with_status(
                a,
                "Unknown provider. Use: gemini, openai, groq, ollama"@,
            ),
            Some(p) => {
                let model = ModelView {
                    name: w[2],
                    api_key: w[3],
                    base_url: if w.len() >= 5 {
                        w[4]
                    } else {
                        default_base_url(p)
                    },
                    provider: p,
                };
                let current = match a.config.current {
                    Some(c) => Some(c),
                    None => Some(w[2]),
                };
                &&& out == Some(
                    SaveView {
                        on_success: "Model "@ + w[2] + " ("@ + word + ") added and selected."@,
                        select: Some(w[2]),
                    },
                )
                &&& post == with_config(
                    a,
                    ConfigView { models: a.config.models.insert(w[2], model), current },
                )
            },
        }
}

/// `/model <provider> <name> <api_key> [base_url]`.
pub open spec fn model_step(a: AppView, w: Seq<Seq<char>>, post: AppView, out: Option<SaveView>) -> bool {
    if w.len() >= 4 {
        model_added(a, lowercase(w[1]), w, post, out)
    } else {
        out is None && post == with_status(
            a,
            "Usage: /model <provider> <name> <api_key> [base_url]"@,
        )
    }
}

/// `/switch <model_name>`.
pub open spec fn switch_step(a: AppView, w: Seq<Seq<char>>, post: AppView, out: Option<SaveView>) -> bool {
    &&& out is None
    &&& if w.len() >= 2 {
        if a.config.models.contains_key(w[1]) {
            post == with_status(
                with_config(a, ConfigView { current: Some(w[1]), ..a.config }),
                switched_to(w[1]),
            )
        } else {
            post == with_status(a, not_found(w[1]))
        }
    } else {
        post == with_status(a, "Usage: /switch <model_name>"@)
    }
}

/// `/remove <model_name>`: when the removed model was selected, some
/// remaining model is selected instead, or none when none remains.
pub open spec fn remove_step(a: AppView, w: Seq<Seq<char>>, post: AppView, out: Option<SaveView>) -> bool {
    if w.len() >= 2 {
        let name = w[1];
        if a.config.models.contains_key(name) {
            &&& out == Some(SaveView { on_success: "Model "@ + name + " removed."@, select: None })
            &&& post == with_config(a, post.config)
            &&& post.config.models == a.config.models.remove(name)
            &&& if a.config.current == Some(name) {
                &&& (post.config.current is None <==> post.config.models.dom().is_empty())
                &&& (post.config.current matches Some(k) ==> post.config.models.contains_key(k))
            } else {
                post.config.current == a.config.current
            }
        } else {
            out is None && post == with_status(a, not_found(name))
        }
    } else {
        out is None && post == with_status(a, "Usage: /remove <model_name>"@)
    }
}

/// `/rename <old_name> <new_name>`: the entry moves to the new name and
/// takes it as its own name; the selection follows it.
pub open spec fn rename_step(a: AppView, w: Seq<Seq<char>>, post: AppView, out: Option<SaveView>) -> bool {
    if w.len() >= 3 {
        let from = w[1];
        let to = w[2];
        if a.config.models.contains_key(from) {
            let moved = ModelView { name: to, ..a.config.models[from] };
            &&& out == Some(
                SaveView { on_success: "Model "@ + from + " renamed to "@ + to + "."@, select: None },
            )
            &&& post == with_config(
                a,
                ConfigView {
                    models: a.config.models.remove(from).insert(to, moved),
                    current: if a.config.current == Some(from) {
                        Some(to)
                    } else {
                        a.config.current
                    },
                },
            )
        } else {
            out is None && post == with_status(a, not_found(from))
        }
    } else {
        out is None && post == with_status(a, "Usage: /rename <old_name> <new_name>"@)
    }
}

/// What a slash command line does: the line is always consumed (the
/// cursor is left where it was); the command is chosen by the line's prefix (`/model`, `/switch`, `/remove`,
/// `/rename`) or by the whole line (`/help`, `/clear`).
pub open spec fn command_step(pre: AppView, post: AppView, out: Option<SaveView>) -> bool {
    let line = pre.input;
    let w = words(line);
    let a = emptied(pre);
    if "/model"@.is_prefix_of(line) {
        model_step(a, w, post, out)
    } else if "/switch"@.is_prefix_of(line) {
        switch_step(a, w, post, out)
    } else if "/remove"@.is_prefix_of(line) {
        remove_step(a, w, post, out)
    } else if "/rename"@.is_prefix_of(line) {
        rename_step(a, w, post, out)
    } else if line == "/help"@ {
        out is None && post == with_status(
            AppView { show_help: true, ..a },
            "Help menu opened. Press ESC to close."@,
        )
    } else if line == "/clear"@ {
        out is None && post == with_status(
            AppView { messages: Seq::empty(), chat_scroll: 0, ..a },
            "Chat history cleared."@,
        )
    } else {
        out is None && post == with_status(a, "Unknown command."@)
    }
}

/// What reporting a configuration write does: on failure the error is
/// shown; on success the pending report is shown and its model selected.
pub open spec fn save_step(pre: AppView, pending: SaveView, error: Option<Seq<char>>, post: AppView) -> bool {
    match error {
        Some(e) => post == with_status(pre, "Error saving config: "@ + e),
        None => post == with_status(
            with_config(
                pre,
                ConfigView {
                    current: match pending.select {
                        Some(n) => Some(n),
                        None => pre.config.current,
                    },
                    ..pre.config
                },
            ),
            pending.on_success,
        ),
    }
}

fn three(a: &str, b: &str, c: &str) -> (r: String)
    ensures
        r@ == a@ + b@ + c@,
{
    let mut r = String::from_str(a);
    r.append(b);
    r.append(c);
    r
}

impl App {
    /// A fresh session over a loaded configuration.
    pub fn new(config: Config) -> (r: App)
        ensures
            r@.config == config@,
            r@.messages == Seq::<MessageView>::empty(),
            r@.input == Seq::<char>::empty(),
            r@.status == "Press / for commands, Enter to send chat."@,
            !r@.is_loading,
            r@.chat_scroll == 0,
            r@.cursor == 0,
            !r@.show_help,
            r@.help_scroll == 0,
    {
        let r = App {
            config,
            messages: Vec::new(),
            input: String::new(),
            status_message: String::from_str("Press / for commands, Enter to send chat."),
            is_loading: false,
            chat_scroll: 0,
            cursor_pos: 0,
            show_help: false,
            help_scroll: 0,
        };
        assert(message_views(r.messages@) =~= Seq::empty());
        r
    }

    fn set_status(&mut self, s: String)
        ensures
            final(self)@ == with_status(old(self)@, s@),
    {
        self.status_message = s;
    }

    fn run_model(&mut self, w: &Vec<String>) -> (out: CommandOutcome)
        ensures
            model_step(old(self)@, views(w@), final(self)@, out@),
    {
        if w.len() >= 4 {
            let word = to_lowercase(w[1].as_str());
            assert(views(w@)[1] == w@[1]@);
            self.add_model_from_words(word.as_str(), w)
        } else {
            self.set_status(
                String::from_str("Usage: /model <provider> <name> <api_key> [base_url]"),
            );
            CommandOutcome::Done
        }
    }

    /// The `/model` command once its provider word (`w[1]`) has been
    /// lowercased into `word`: registers the model named `w[2]` with key
    /// `w[3]` and base URL `w[4]` (the provider's default when absent),
    /// or reports an unknown provider.
    pub fn add_model_from_words(&mut self, word: &str, w: &Vec<String>) -> (out: CommandOutcome)
        requires
            w@.len() >= 4,
        ensures
            model_added(old(self)@, word@, views(w@), final(self)@, out@),
    {
        let ghost pre = self@;
        match provider_from_word(word) {
            None => {
                self.set_status(
                    String::from_str("Unknown provider. Use: gemini, openai, groq, ollama"),
                );
                CommandOutcome::Done
            },
            Some(p) => {
                let name = w[2].clone();
                let base_url = if w.len() >= 5 {
                    Some(w[4].clone())
                } else {
                    None
                };
                self.config.add_model(p, name.clone(), w[3].clone(), base_url);
                let mut msg = three("Model ", name.as_str(), " (");
                msg.append(word);
                msg.append(") added and selected.");
                proof {
                    assert(views(w@)[2] == w@[2]@);
                    assert(views(w@)[3] == w@[3]@);
                    if w.len() >= 5 {
                        assert(views(w@)[4] == w@[4]@);
                    }
                    assert(self@ =~= with_config(pre, self@.config));
                }
                CommandOutcome::Save(PendingSave { on_success: msg, select: Some(name) })
            },
        }
    }

    fn run_switch(&mut self, w: &Vec<String>) -> (out: CommandOutcome)
        ensures
            switch_step(old(self)@, views(w@), final(self)@, out@),
    {
        let ghost pre = self@;
        if w.len() >= 2 {
            let name = w[1].clone();
            assert(views(w@)[1] == w@[1]@);
            if self.config.contains_key(name.as_str()) {
                let msg = joined("Switched to model: ", name.as_str());
                self.config.set_current_model(Some(name));
                self.set_status(msg);
                assert(self@ =~= with_status(
                    with_config(pre, ConfigView { current: Some(views(w@)[1]), ..pre.config }),
                    switched_to(views(w@)[1]),
                ));
            } else {
                self.set_status(three("Model ", name.as_str(), " not found."));
            }
        } else {
            self.set_status(String::from_str("Usage: /switch <model_name>"));
        }
        CommandOutcome::Done
    }

    fn run_remove(&mut self, w: &Vec<String>) -> (out: CommandOutcome)
        ensures
            remove_step(old(self)@, views(w@), final(self)@, out@),
    {
        let ghost pre = self@;
        if w.len() >= 2 {
            let name = w[1].clone();
            assert(views(w@)[1] == w@[1]@);
            match self.config.remove(name.as_str()) {
                Some(_) => {
                    let was_current = match self.config.current_model() {
                        Some(c) => same_text(c.as_str(), name.as_str()),
                        None => false,
                    };
                    if was_current {
                        let next = self.config.any_key();
                        self.config.set_current_model(next);
                    }
                    let msg = three("Model ", name.as_str(), " removed.");
                    assert(self@ =~= with_config(pre, self@.config));
                    CommandOutcome::Save(PendingSave { on_success: msg, select: None })
                },
                None => {
                    self.set_status(three("Model ", name.as_str(), " not found."));
                    assert(self@ =~= with_status(pre, not_found(name@)));
                    CommandOutcome::Done
                },
            }
        } else {
            self.set_status(String::from_str("Usage: /remove <model_name>"));
            CommandOutcome::Done
        }
    }

    fn run_rename(&mut self, w: &Vec<String>) -> (out: CommandOutcome)
        ensures
            rename_step(old(self)@, views(w@), final(self)@, out@),
    {
        let ghost pre = self@;
        if w.len() >= 3 {
            let from = w[1].clone();
            let to = w[2].clone();
            assert(views(w@)[1] == w@[1]@);
            assert(views(w@)[2] == w@[2]@);
            match self.config.remove(from.as_str()) {
                Some(model) => {
                    let moved = ModelConfig { name: to.clone(), ..model };
                    self.config.insert(to.clone(), moved);
                    let was_current = match self.config.current_model() {
                        Some(c) => same_text(c.as_str(), from.as_str()),
                        None => false,
                    };
                    if was_current {
                        self.config.set_current_model(Some(to.clone()));
                    }
                    let mut msg = three("Model ", from.as_str(), " renamed to ");
                    msg.append(to.as_str());
                    msg.append(".");
                    assert(self@ =~= with_config(pre, self@.config));
                    CommandOutcome::Save(PendingSave { on_success: msg, select: None })
                },
                None => {
                    self.set_status(three("Model ", from.as_str(), " not found."));
                    assert(self@ =~= with_status(pre, not_found(from@)));
                    CommandOutcome::Done
                },
            }
        } else {
            self.set_status(String::from_str("Usage: /rename <old_name> <new_name>"));
            CommandOutcome::Done
        }
    }

    /// Runs the slash command on the input line and empties the line; the
    /// cursor is left where it was (pressing Enter puts it back at the start).
    pub fn handle_command(&mut self) -> (out: CommandOutcome)
        ensures
            command_step(old(self)@, final(self)@, out@),
    {
        let mut line = String::new();
        std::mem::swap(&mut line, &mut self.input);
        let ghost a = self@;
        assert(a =~= emptied(old(self)@));
        let w = split_words(line.as_str());
        if starts_with(line.as_str(), "/model") {
            self.run_model(&w)
        } else if starts_with(line.as_str(), "/switch") {
            self.run_switch(&w)
        } else if starts_with(line.as_str(), "/remove") {
            self.run_remove(&w)
        } else if starts_with(line.as_str(), "/rename") {
            self.run_rename(&w)
        } else if same_text(line.as_str(), "/help") {
            self.show_help = true;
            self.set_status(String::from_str("Help menu opened. Press ESC to close."));
            CommandOutcome::Done
        } else if same_text(line.as_str(), "/clear") {
            self.messages = Vec::new();
            self.chat_scroll = 0;
            self.set_status(String::from_str("Chat history cleared."));
            assert(message_views(self.messages@) =~= Seq::empty());
            CommandOutcome::Done
        } else {
            self.set_status(String::from_str("Unknown command."));
            CommandOutcome::Done
        }
    }

    /// Reports how the configuration write that `pending` waited for
    /// ended: `error` holds the write's error message when it failed.
    pub fn finish_save(&mut self, pending: PendingSave, error: Option<String>)
        ensures
            save_step(old(self)@, pending@, opt_view(error), final(self)@),
    {
        let ghost pre = self@;
        match error {
            Some(e) => {
                self.set_status(joined("Error saving config: ", e.as_str()));
            },
            None => {
                match pending.select {
                    Some(n) => {
                        self.config.set_current_model(Some(n));
                    },
                    None => {},
                }
                self.set_status(pending.on_success);
                assert(self@ =~= with_status(
                    with_config(
                        pre,
                        ConfigView {
                            current: match pending@.select {
                                Some(n) => Some(n),
                                None => pre.config.current,
                            },
                            ..pre.config
                        },
                    ),
                    pending@.on_success,
                ));
            },
        }
    }

    /// Where the cursor stands in the input line, in characters.
    pub fn cursor_position(&self) -> (r: usize)
        ensures
            r == self@.cursor,
    {
        self.cursor_pos
    }

    /// Whether `key` can be handled: typing a character, or Backspace, needs
    /// the cursor within the input line.
    pub fn key_fits(&self, key: Key) -> (r: bool)
        ensures
            r == key_fits(self@, key),
    {
        match key {
            Key::Char(c, control) => (c == 'c' && control) || self.cursor_pos
                <= self.input.as_str().unicode_len(),
            Key::Backspace => self.cursor_pos <= self.input.as_str().unicode_len(),
            _ => true,
        }
    }

    /// The registry.
    pub fn config(&self) -> (r: &Config)
        ensures
            r@ == self@.config,
    {
        &self.config
    }
}


/// A chat completion to send: the model to ask and the conversation so far.
pub struct ChatRequest {
    pub model: ModelConfig,
    pub messages: Vec<Message>,
}

/// A key press, as the session sees it.
#[derive(Clone, Copy, Debug, PartialEq, Eq, Structural)]
pub enum Key {
    /// A character key, and whether Control was held.
    Char(char, bool),
    Enter,
    Left,
    Right,
    Home,
    End,
    Up,
    Down,
    PageUp,
    PageDown,
    Backspace,
    Delete,
    Esc,
    Other,
}

/// What a key press asks of the caller.
pub enum KeyOutcome {
    /// Nothing more to do.
    Continue,
    /// Leave the program.
    Quit,
    /// Write the configuration, then report the write with `finish_save`.
    Save(PendingSave),
    /// Send the request and report its answer with `receive_response`.
    Send(ChatRequest),
}

pub enum ReplyView {
    Continue,
    Quit,
    Save(SaveView),
    Send(ModelView, Seq<MessageView>),
}

impl View for KeyOutcome {
    type V = ReplyView;

    open spec fn view(&self) -> ReplyView {
        match self {
            KeyOutcome::Continue => ReplyView::Continue,
            KeyOutcome::Quit => ReplyView::Quit,
            KeyOutcome::Save(p) => ReplyView::Save(p@),
            KeyOutcome::Send(r) => ReplyView::Send(r.model@, message_views(r.messages@)),
        }
    }
}

/// The save a reply asks for, if any.
pub open spec fn save_of(r: ReplyView) -> Option<SaveView> {
    match r {
        ReplyView::Save(s) => Some(s),
        _ => None,
    }
}

/// What pressing Enter on a line that is no command does: a non-empty
/// line, while no answer is awaited, is taken off the input; it becomes a
/// user message sent to the selected model when that model is configured.
pub open spec fn submit_step(pre: AppView, post: AppView, out: ReplyView) -> bool {
    if pre.input.len() == 0 || pre.is_loading {
        post == pre && out == ReplyView::Continue
    } else {
        let a = cleared(pre);
        match pre.config.current {
            None => post == with_status(a, "No model selected. Use /model command."@) && out
                == ReplyView::Continue,
            Some(name) => if pre.config.models.contains_key(name) {
                let msgs = a.messages.push(MessageView { role: "user"@, content: pre.input });
                &&& post == AppView {
                    messages: msgs,
                    is_loading: true,
                    status: "Waiting for "@ + name + "..."@,
                    chat_scroll: 0,
                    ..a
                }
                &&& out == ReplyView::Send(pre.config.models[name], msgs)
            } else {
                post == a && out == ReplyView::Continue
            },
        }
    }
}

/// The scroll position that the arrow and page keys move: the help
/// text's while help is shown, the chat's otherwise.
pub open spec fn scrolled(pre: AppView, raise: bool, d: u16) -> AppView {
    if pre.show_help {
        AppView {
            help_scroll: if raise {
                up(pre.help_scroll, d)
            } else {
                down(pre.help_scroll, d)
            },
            ..pre
        }
    } else {
        AppView {
            chat_scroll: if raise {
                up(pre.chat_scroll, d)
            } else {
                down(pre.chat_scroll, d)
            },
            ..pre
        }
    }
}

/// The keys that edit the line at the cursor (a character that is not
/// Control-C, Backspace) need the cursor within the line.
pub open spec fn key_fits(a: AppView, key: Key) -> bool {
    match key {
        Key::Char(c, control) => (c == 'c' && control) || a.cursor <= a.input.len(),
        Key::Backspace => a.cursor <= a.input.len(),
        _ => true,
    }
}

/// What a key press does to the session.
pub open spec fn key_step(pre: AppView, key: Key, post: AppView, out: ReplyView) -> bool {
    let n = pre.input.len();
    let i = pre.cursor;
    match key {
        Key::Char(c, control) => if c == 'c' && control {
            post == pre && out == ReplyView::Quit
        } else {
            out == ReplyView::Continue && post == AppView {
                input: pre.input.take(i as int).push(c) + pre.input.skip(i as int),
                cursor: i + 1,
                chat_scroll: 0,
                ..pre
            }
        },
        Key::Enter => if n > 0 && pre.input[0] == '/' {
            &&& command_step(pre, AppView { cursor: pre.cursor, ..post }, save_of(out))
            &&& post.cursor == 0
            &&& (out is Continue || out is Save)
        } else {
            submit_step(pre, post, out)
        },
        Key::Esc => if pre.show_help {
            out == ReplyView::Continue && post == with_status(
                AppView { show_help: false, ..pre },
                "Help menu closed."@,
            )
        } else {
            out == ReplyView::Quit && post == pre
        },
        _ => out == ReplyView::Continue && post == match key {
            Key::Left => if i > 0 {
                AppView { cursor: (i - 1) as nat, ..pre }
            } else {
                pre
            },
            Key::Right => if i < n {
                AppView { cursor: i + 1, ..pre }
            } else {
                pre
            },
            Key::Home => AppView { cursor: 0, ..pre },
            Key::End => AppView { cursor: n, ..pre },
            Key::Up => scrolled(pre, true, 1),
            Key::Down => scrolled(pre, false, 1),
            Key::PageUp => scrolled(pre, true, 10),
            Key::PageDown => scrolled(pre, false, 10),
            Key::Backspace => if i > 0 {
                AppView {
                    input: pre.input.take(i - 1 as int) + pre.input.skip(i as int),
                    cursor: (i - 1) as nat,
                    ..pre
                }
            } else {
                pre
            },
            Key::Delete => if i < n {
                AppView { input: pre.input.take(i as int) + pre.input.skip(i + 1 as int), ..pre }
            } else {
                pre
            },
            _ => pre,
        },
    }
}

/// A mouse event, as the session sees it.
#[derive(Clone, Copy, Debug, PartialEq, Eq, Structural)]
pub enum MouseKind {
    LeftDown,
    ScrollUp,
    ScrollDown,
    Other,
}

/// What a mouse event at (`column`, `row`) does on a screen laid out in
/// `areas`: a click on a sidebar row selects the model listed there; the
/// wheel over the chat scrolls it (or the help) by three.
pub open spec fn mouse_step(
    pre: AppView,
    kind: MouseKind,
    column: u16,
    row: u16,
    areas: ScreenAreas,
    post: AppView,
) -> bool {
    let sidebar = areas.sidebar;
    let chat = areas.chat;
    match kind {
        MouseKind::LeftDown => {
            let names = listing(pre.config.models);
            let idx = row - sidebar.y - 1;
            if inside(sidebar, column, row) && idx < names.len() {
                post == AppView {
                    config: ConfigView { current: Some(names[idx]), ..pre.config },
                    status: switched_to(names[idx]),
                    chat_scroll: 0,
                    ..pre
                }
            } else {
                post == pre
            }
        },
        MouseKind::ScrollUp => post == if inside(chat, column, row) {
            scrolled(pre, true, 3)
        } else {
            pre
        },
        MouseKind::ScrollDown => post == if inside(chat, column, row) {
            scrolled(pre, false, 3)
        } else {
            pre
        },
        MouseKind::Other => post == pre,
    }
}

/// What an answer to a sent request does: the wait ends, and the answer
/// becomes an assistant message, or its error is shown.
pub open spec fn response_step(pre: AppView, res: Result<Seq<char>, Seq<char>>, post: AppView) -> bool {
    match res {
        Ok(text) => post == AppView {
            is_loading: false,
            messages: pre.messages.push(MessageView { role: "assistant"@, content: text }),
            status: "Response received."@,
            chat_scroll: 0,
            ..pre
        },
        Err(e) => post == AppView { is_loading: false, status: "Error: "@ + e, ..pre },
    }
}

/// The text shown in the help pane.
pub const HELP_TEXT: &'static str = "### Commands\n\n- `/model <provider> <name> <api_key> [base_url]` - Add a new model.\n  - Providers: `openai`, `gemini`, `groq`, `ollama` \n- `/switch <model_name>` - Switch to another model.\n- `/remove <model_name>` - Remove a model from config.\n- `/rename <old> <new>` - Rename an existing model.\n- `/clear` - Clear chat history.\n- `/help` - Show help message.\n- `ESC` - Exit.\n\n### Keybindings\n\n- `Enter`: Send message\n- `Up/Down/PgUp/PgDn`: Scroll chat history\n- `Left/Right/Home/End`: Navigate input cursor\n- `Delete/Backspace`: Edit text\n\n### Interaction\n\n- **Sidebar**: Click on a model name to switch models.\n- **Chat**: Use Mouse Wheel to scroll history.\n\n## Configuration\n\nConfig is stored in `~/.config/query.rs/models.json`.";

/// Who a message is shown as coming from.
pub open spec fn speaker(role: Seq<char>) -> Seq<char> {
    if role == "user"@ {
        "You"@
    } else {
        "AI"@
    }
}

/// The conversation as plain text: `Speaker: text`, a blank line after each.
pub open spec fn plain_chat(m: Seq<MessageView>) -> Seq<char>
    decreases m.len(),
{
    if m.len() == 0 {
        Seq::empty()
    } else {
        plain_chat(m.drop_last()) + speaker(m.last().role) + ": "@ + m.last().content + "\n\n"@
    }
}

/// The conversation as markdown: `**Speaker**: text`, a blank line after each.
pub open spec fn marked_chat(m: Seq<MessageView>) -> Seq<char>
    decreases m.len(),
{
    if m.len() == 0 {
        Seq::empty()
    } else {
        marked_chat(m.drop_last()) + "**"@ + speaker(m.last().role) + "**: "@ + m.last().content
            + "\n\n"@
    }
}

/// Everything one frame shows, laid out for a terminal of a given size.
pub struct Screen {
    pub areas: ScreenAreas,
    /// The title bar's text.
    pub title: String,
    /// The sidebar rows: each configured name in ascending order, and
    /// whether it is the selected one.
    pub models: Vec<(String, bool)>,
    /// Whether the chat pane shows the help text.
    pub show_help: bool,
    /// The markdown the chat pane shows.
    pub body: String,
    /// The first line of the chat pane's text that is shown.
    pub body_scroll: u16,
    /// The input line and the first of its wrapped lines that is shown.
    pub input: String,
    pub input_scroll: u16,
    /// Where the terminal cursor goes.
    pub cursor_x: u16,
    pub cursor_y: u16,
    pub status: String,
}

/// The cursor's column and line within the input box's inner width.
pub open spec fn cursor_cell(cursor: nat, input_width: u16) -> (u16, u16) {
    let w = down(input_width, 2);
    if w > 0 {
        ((cursor % (w as nat)) as u16, (cursor / (w as nat)) as u16)
    } else {
        (0, 0)
    }
}

/// `r` is the frame of session `a` on a screen laid out in `r.areas`.
pub open spec fn screen_of(a: AppView, r: Screen) -> bool {
    let names = listing(a.config.models);
    let chat = r.areas.chat;
    let inner = down(chat.width, 2) as usize;
    let rows = down(chat.height, 2);
    let (cx, cy) = cursor_cell(a.cursor, r.areas.input.width);
    &&& r.title@ == "Current Model: "@ + match a.config.current {
        Some(c) => c,
        None => "None"@,
    }
    &&& r.models@.len() == names.len()
    &&& forall|i: int|
        0 <= i < names.len() ==> (#[trigger] r.models@[i]).0@ == names[i] && r.models@[i].1 == (
        a.config.current == Some(names[i]))
    &&& r.show_help == a.show_help
    &&& if a.show_help {
        &&& r.body@ == HELP_TEXT@
        &&& r.body_scroll == top_line(wrapped_lines(HELP_TEXT@, inner) as u16, rows, a.help_scroll)
    } else {
        &&& r.body@ == marked_chat(a.messages)
        &&& r.body_scroll == top_line(
            wrapped_lines(plain_chat(a.messages), inner) as u16,
            rows,
            a.chat_scroll,
        )
    }
    &&& r.input@ == a.input
    &&& r.input_scroll == cy
    &&& r.cursor_x == ((r.areas.input.x + 1 + cx) % 0x10000) as u16
    &&& r.cursor_y == ((r.areas.input.y + 1) % 0x10000) as u16
    &&& r.status@ == a.status
}

fn copy_messages(v: &Vec<Message>) -> (r: Vec<Message>)
    ensures
        r@ == v@,
{
    let mut r: Vec<Message> = Vec::new();
    let mut i: usize = 0;
    while i < v.len()
        invariant
            i <= v@.len(),
            r@ == v@.take(i as int),
        decreases v@.len() - i,
    {
        r.push(v[i].clone());
        assert(v@.take(i + 1) =~= v@.take(i as int).push(v@[i as int]));
        i = i + 1;
    }
    assert(v@.take(v@.len() as int) =~= v@);
    r
}

impl App {
    fn push_message(&mut self, m: Message)
        ensures
            final(self)@ == (AppView { messages: old(self)@.messages.push(m@), ..old(self)@ }),
    {
        let ghost before = self.messages@;
        self.messages.push(m);
        assert(message_views(self.messages@) =~= message_views(before).push(m@));
    }

    fn scroll(&mut self, raise: bool, d: u16)
        ensures
            final(self)@ == scrolled(old(self)@, raise, d),
    {
        if self.show_help {
            self.help_scroll = if raise {
                self.help_scroll.saturating_add(d)
            } else {
                self.help_scroll.saturating_sub(d)
            };
        } else {
            self.chat_scroll = if raise {
                self.chat_scroll.saturating_add(d)
            } else {
                self.chat_scroll.saturating_sub(d)
            };
        }
    }

    fn submit(&mut self) -> (out: KeyOutcome)
        ensures
            submit_step(old(self)@, final(self)@, out@),
    {
        if self.input.as_str().unicode_len() == 0 || self.is_loading {
            return KeyOutcome::Continue;
        }
        self.cursor_pos = 0;
        let mut line = String::new();
        std::mem::swap(&mut line, &mut self.input);
        let ghost a = self@;
        assert(a =~= cleared(old(self)@));
        let name = match self.config.current_model() {
            Some(n) => n.clone(),
            None => {
                self.set_status(String::from_str("No model selected. Use /model command."));
                return KeyOutcome::Continue;
            },
        };
        let model = match self.config.get(name.as_str()) {
            Some(m) => m.clone(),
            None => {
                return KeyOutcome::Continue;
            },
        };
        self.push_message(Message { role: String::from_str("user"), content: line });
        self.is_loading = true;
        self.chat_scroll = 0;
        self.set_status(three("Waiting for ", name.as_str(), "..."));
        let messages = copy_messages(&self.messages);
        KeyOutcome::Send(ChatRequest { model, messages })
    }

    /// Handles one key press.
    pub fn handle_key(&mut self, key: Key) -> (out: KeyOutcome)
        requires
            key_fits(old(self)@, key),
        ensures
            key_step(old(self)@, key, final(self)@, out@),
            old(self)@.cursor <= old(self)@.input.len() ==> final(self)@.cursor
                <= final(self)@.input.len(),
    {
        let n = self.input.as_str().unicode_len();
        match key {
            Key::Char(c, control) => {
                if c == 'c' && control {
                    return KeyOutcome::Quit;
                }
                let s = insert_char_at(self.input.as_str(), self.cursor_pos, c);
                let m = s.as_str().unicode_len();
                assert(m == n + 1);
                self.input = s;
                self.cursor_pos = self.cursor_pos + 1;
                self.chat_scroll = 0;
                KeyOutcome::Continue
            },
            Key::Enter => {
                if n > 0 && self.input.as_str().get_char(0) == '/' {
                    let outcome = self.handle_command();
                    let ghost mid = self@;
                    self.cursor_pos = 0;
                    assert(mid =~= AppView { cursor: old(self)@.cursor, ..self@ });
                    match outcome {
                        CommandOutcome::Done => KeyOutcome::Continue,
                        CommandOutcome::Save(p) => KeyOutcome::Save(p),
                    }
                } else {
                    self.submit()
                }
            },
            Key::Left => {
                if self.cursor_pos > 0 {
                    self.cursor_pos = self.cursor_pos - 1;
                }
                KeyOutcome::Continue
            },
            Key::Right => {
                if self.cursor_pos < n {
                    self.cursor_pos = self.cursor_pos + 1;
                }
                KeyOutcome::Continue
            },
            Key::Home => {
                self.cursor_pos = 0;
                KeyOutcome::Continue
            },
            Key::End => {
                self.cursor_pos = n;
                KeyOutcome::Continue
            },
            Key::Up => {
                self.scroll(true, 1);
                KeyOutcome::Continue
            },
            Key::Down => {
                self.scroll(false, 1);
                KeyOutcome::Continue
            },
            Key::PageUp => {
                self.scroll(true, 10);
                KeyOutcome::Continue
            },
            Key::PageDown => {
                self.scroll(false, 10);
                KeyOutcome::Continue
            },
            Key::Backspace => {
                if self.cursor_pos > 0 {
                    let s = remove_char_at(self.input.as_str(), self.cursor_pos - 1);
                    self.cursor_pos = self.cursor_pos - 1;
                    self.input = s;
                }
                KeyOutcome::Continue
            },
            Key::Delete => {
                if self.cursor_pos < n {
                    let s = remove_char_at(self.input.as_str(), self.cursor_pos);
                    self.input = s;
                }
                KeyOutcome::Continue
            },
            Key::Esc => {
                if self.show_help {
                    self.show_help = false;
                    self.set_status(String::from_str("Help menu closed."));
                    KeyOutcome::Continue
                } else {
                    KeyOutcome::Quit
                }
            },
            Key::Other => KeyOutcome::Continue,
        }
    }

    /// Handles one mouse event at (`column`, `row`) on a terminal of
    /// `width` by `height` cells, laid out by `screen_areas`.
    pub fn handle_mouse(&mut self, kind: MouseKind, column: u16, row: u16, width: u16, height: u16)
        ensures
            exists|areas: ScreenAreas|
                #![trigger screen_split(areas, width, height)]
                screen_split(areas, width, height) && areas_fit(areas, width) && mouse_step(
                    old(self)@,
                    kind,
                    column,
                    row,
                    areas,
                    final(self)@,
                ),
            old(self)@.config.selection_valid() ==> final(self)@.config.selection_valid(),
    {
        let areas = screen_areas(width, height);
        let ghost used = areas;
        self.handle_mouse_in(kind, column, row, areas);
        assert(screen_split(used, width, height) && areas_fit(used, width));
    }

    /// Handles one mouse event at (`column`, `row`) on a screen laid out in
    /// `areas`.
    pub fn handle_mouse_in(&mut self, kind: MouseKind, column: u16, row: u16, areas: ScreenAreas)
        ensures
            mouse_step(old(self)@, kind, column, row, areas, final(self)@),
            old(self)@.config.selection_valid() ==> final(self)@.config.selection_valid(),
    {
        match kind {
            MouseKind::LeftDown => {
                if is_inside(areas.sidebar, column, row) {
                    let idx = (row - areas.sidebar.y - 1) as usize;
                    let names = self.config.sorted_names();
                    if idx < names.len() {
                        let name = names[idx].clone();
                        assert(views(names@)[idx as int] == name@);
                        assert(views(names@).contains(name@));
                        let msg = joined("Switched to model: ", name.as_str());
                        self.config.set_current_model(Some(name));
                        self.set_status(msg);
                        self.chat_scroll = 0;
                    }
                }
            },
            MouseKind::ScrollUp => {
                if is_inside(areas.chat, column, row) {
                    self.scroll(true, 3);
                }
            },
            MouseKind::ScrollDown => {
                if is_inside(areas.chat, column, row) {
                    self.scroll(false, 3);
                }
            },
            MouseKind::Other => {},
        }
    }

    /// Takes in the answer to the last request sent: its text, or its
    /// error message.
    pub fn receive_response(&mut self, res: Result<String, String>)
        ensures
            response_step(
                old(self)@,
                match res {
                    Ok(t) => Ok(t@),
                    Err(e) => Err(e@),
                },
                final(self)@,
            ),
    {
        self.is_loading = false;
        match res {
            Ok(text) => {
                self.push_message(Message { role: String::from_str("assistant"), content: text });
                self.set_status(String::from_str("Response received."));
                self.chat_scroll = 0;
            },
            Err(e) => {
                self.set_status(joined("Error: ", e.as_str()));
            },
        }
    }

    fn chat_texts(&self) -> (r: (String, String))
        ensures
            r.0@ == plain_chat(message_views(self.messages@)),
            r.1@ == marked_chat(message_views(self.messages@)),
    {
        let mut plain = String::new();
        let mut marked = String::new();
        let mut i: usize = 0;
        while i < self.messages.len()
            invariant
                i <= self.messages@.len(),
                plain@ == plain_chat(message_views(self.messages@.take(i as int))),
                marked@ == marked_chat(message_views(self.messages@.take(i as int))),
            decreases self.messages@.len() - i,
        {
            let m = &self.messages[i];
            let who = if same_text(m.role.as_str(), "user") {
                "You"
            } else {
                "AI"
            };
            plain.append(who);
            plain.append(": ");
            plain.append(m.content.as_str());
            plain.append("\n\n");
            marked.append("**");
            marked.append(who);
            marked.append("**: ");
            marked.append(m.content.as_str());
            marked.append("\n\n");
            proof {
                let s = message_views(self.messages@.take(i + 1));
                assert(s.drop_last() =~= message_views(self.messages@.take(i as int)));
                assert(s.last() == self.messages@[i as int]@);
            }
            i = i + 1;
        }
        assert(self.messages@.take(self.messages@.len() as int) =~= self.messages@);
        (plain, marked)
    }

    /// Lays out the frame for a terminal of `width` by `height` cells, in
    /// the areas `screen_areas` gives.
    pub fn screen(&self, width: u16, height: u16) -> (r: Screen)
        ensures
            screen_split(r.areas, width, height),
            areas_fit(r.areas, width),
            screen_of(self@, r),
    {
        self.screen_in(screen_areas(width, height))
    }

    /// Lays out the frame in the given screen areas.
    pub fn screen_in(&self, areas: ScreenAreas) -> (r: Screen)
        ensures
            r.areas == areas,
            screen_of(self@, r),
    {
        let title = match self.config.current_model() {
            Some(c) => joined("Current Model: ", c.as_str()),
            None => joined("Current Model: ", "None"),
        };
        let names = self.config.sorted_names();
        let mut models: Vec<(String, bool)> = Vec::new();
        let mut i: usize = 0;
        while i < names.len()
            invariant
                i <= names@.len(),
                views(names@) == listing(self@.config.models),
                models@.len() == i,
                forall|k: int|
                    0 <= k < i ==> (#[trigger] models@[k]).0@ == names@[k]@ && models@[k].1 == (
                    self@.config.current == Some(names@[k]@)),
            decreases names@.len() - i,
        {
            let selected = match self.config.current_model() {
                Some(c) => same_text(c.as_str(), names[i].as_str()),
                None => false,
            };
            models.push((names[i].clone(), selected));
            i = i + 1;
        }
        proof {
            assert forall|k: int| 0 <= k < names@.len() implies views(names@)[k] == names@[k]@ by {}
        }
        let chat = areas.chat;
        let inner = chat.width.saturating_sub(2) as usize;
        let rows = chat.height.saturating_sub(2);
        let (body, body_scroll) = if self.show_help {
            let total = #[verifier::truncate] (wrapped_line_count(HELP_TEXT, inner) as u16);
            (String::from_str(HELP_TEXT), top_line_of(total, rows, self.help_scroll))
        } else {
            let (plain, marked) = self.chat_texts();
            let total = #[verifier::truncate] (wrapped_line_count(plain.as_str(), inner) as u16);
            (marked, top_line_of(total, rows, self.chat_scroll))
        };
        let input_inner = areas.input.width.saturating_sub(2) as usize;
        let (cx, cy) = if input_inner > 0 {
            (
                #[verifier::truncate] ((self.cursor_pos % input_inner) as u16),
                #[verifier::truncate] ((self.cursor_pos / input_inner) as u16),
            )
        } else {
            (0u16, 0u16)
        };
        let cursor_x = ((areas.input.x as u32 + 1 + cx as u32) % 0x10000) as u16;
        let cursor_y = ((areas.input.y as u32 + 1) % 0x10000) as u16;
        Screen {
            areas,
            title,
            models,
            show_help: self.show_help,
            body,
            body_scroll,
            input: self.input.clone(),
            input_scroll: cy,
            cursor_x,
            cursor_y,
            status: self.status_message.clone(),
        }
    }
}

} // verus!
