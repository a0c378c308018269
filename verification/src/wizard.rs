//! The wizard: the one object that owns the screen, the menu, the forms, the
//! transcript and the list of updates, and that maps every key press to a
//! change of state.
//!
//! The wizard performs no input or output itself. Where a key press calls for
//! outside work, [`App::step`] returns the request as an [`Effect`]; the
//! caller does the work and reports back through the functions of the
//! `operations` module.

use vstd::prelude::*;
use vstd::string::*;
use crate::form_data::{form_error, uses_openai_embedding, FormData};
use crate::interpreter::{InstallProgress, Phase, SERVICE_COUNT};
use crate::log_buffer::{appended, LogBuffer};
use crate::menu::{
    available, clamp_selection, clamped, entry_above, entry_below, is_available, lemma_listed_options,
    listed_options, menu_options, select_above, select_below,
};
use crate::registry_form::RegistryForm;
use crate::state::{AppState, Key, KeyPress, MenuSelection};
use crate::templates::TEMPLATE_COUNT;
use crate::text::{pop_char, push_char};
use crate::updates::{opt_text, UpdateInfo};

verus! {

/// Milliseconds that the caller waits for a key before it draws the screen anew.
pub const POLL_INTERVAL_MILLIS: u64 = 100;

/// What the operator asked for on the credential screen.
#[derive(Clone, Copy, Debug, PartialEq, Eq, Structural)]
pub enum RegistryAction {
    /// Log in with the token entered.
    Submit,
    /// Go on without logging in.
    Skip,
}

/// What the operator asked for on the list of updates.
#[derive(Clone, Copy, Debug, PartialEq, Eq, Structural)]
pub enum UpdateListAction {
    /// Pull the selected image.
    Pull,
    /// Ask the registry again.
    Refresh,
    /// Go back to the menu.
    Back,
}

/// What the operator asked for on the list of templates.
#[derive(Clone, Copy, Debug, PartialEq, Eq, Structural)]
pub enum ConfigAction {
    /// Write the configuration from the template of this index.
    Write(usize),
    /// Go back to the menu.
    Back,
}

/// One of the two commands of an installation.
#[derive(Clone, Copy, Debug, PartialEq, Eq, Structural)]
pub enum Command {
    /// Build the images.
    ComposeBuild,
    /// Start the services.
    ComposeUp,
}

/// The program that both commands of an installation and the pull of an image run.
pub const ENGINE_PROGRAM: &'static str = "docker";

impl Command {
    /// The command as it is named in messages.
    pub fn label(&self) -> (label: &'static str)
        ensures
            label@ == (match self {
                Command::ComposeBuild => "docker compose build"@,
                Command::ComposeUp => "docker compose up"@,
            }),
    {
        match self {
            Command::ComposeBuild => "docker compose build",
            Command::ComposeUp => "docker compose up",
        }
    }

    /// The arguments with which the engine is run for the command.
    pub fn arguments(&self) -> (arguments: Vec<&'static str>)
        ensures
            arguments@.len() == (match self {
                Command::ComposeBuild => 2int,
                Command::ComposeUp => 3int,
            }),
            arguments@[0]@ == "compose"@,
            arguments@[1]@ == (match self {
                Command::ComposeBuild => "build"@,
                Command::ComposeUp => "up"@,
            }),
            *self == Command::ComposeUp ==> arguments@[2]@ == "-d"@,
    {
        let mut arguments: Vec<&'static str> = Vec::new();
        arguments.push("compose");
        match self {
            Command::ComposeBuild => {
                arguments.push("build");
            },
            Command::ComposeUp => {
                arguments.push("up");
                arguments.push("-d");
            },
        }
        arguments
    }
}

/// The name of the pull of an image in messages.
pub const PULL_LABEL: &'static str = "docker pull";

/// The arguments with which the engine is run to pull the image `reference`.
pub fn pull_arguments(reference: &str) -> (arguments: Vec<String>)
    ensures
        arguments@.len() == 2,
        arguments@[0]@ == "pull"@,
        arguments@[1]@ == reference@,
{
    let mut arguments: Vec<String> = Vec::new();
    arguments.push(String::from_str("pull"));
    arguments.push(String::from_str(reference));
    arguments
}

/// Outside work that the wizard asks its caller to do.
pub enum Effect {
    /// Nothing.
    Idle,
    /// Ask the identity service which user the token belongs to.
    ResolveUsername { token: String },
    /// Log in to the registry as `username`, handing `token` over on standard input.
    RegistryLogin { username: String, token: String },
    /// Save the token for later runs.
    PersistToken { token: String },
    /// Run a command of the installation and report its output and its exit.
    Run(Command),
    /// Resolve the updates of all tracked artifacts.
    FetchUpdates { token: Option<String> },
    /// Pull the image with this reference, which is entry `index` of the list.
    PullImage { index: usize, reference: String },
    /// Replace the installer by its latest release, which is entry `index` of the list.
    UpdateInstaller { index: usize },
    /// Write the configuration file from the template of this index.
    WriteConfig { template: usize },
    /// Write the environment file from what the form holds.
    WriteEnv,
}

/// An [`Effect`] with its texts as plain sequences.
pub enum EffectView {
    Idle,
    ResolveUsername { token: Seq<char> },
    RegistryLogin { username: Seq<char>, token: Seq<char> },
    PersistToken { token: Seq<char> },
    Run(Command),
    FetchUpdates { token: Option<Seq<char>> },
    PullImage { index: usize, reference: Seq<char> },
    UpdateInstaller { index: usize },
    WriteConfig { template: usize },
    WriteEnv,
}

impl View for Effect {
    type V = EffectView;

    open spec fn view(&self) -> EffectView {
        match self {
            Effect::Idle => EffectView::Idle,
            Effect::ResolveUsername { token } => EffectView::ResolveUsername { token: token@ },
            Effect::RegistryLogin { username, token } => EffectView::RegistryLogin {
                username: username@,
                token: token@,
            },
            Effect::PersistToken { token } => EffectView::PersistToken { token: token@ },
            Effect::Run(command) => EffectView::Run(*command),
            Effect::FetchUpdates { token } => EffectView::FetchUpdates { token: opt_text(*token) },
            Effect::PullImage { index, reference } => EffectView::PullImage {
                index: *index,
                reference: reference@,
            },
            Effect::UpdateInstaller { index } => EffectView::UpdateInstaller { index: *index },
            Effect::WriteConfig { template } => EffectView::WriteConfig { template: *template },
            Effect::WriteEnv => EffectView::WriteEnv,
        }
    }
}

/// The wizard: everything that the installer keeps between two key presses.
pub struct App {
    /// Cleared when the operator leaves; the caller's loop ends then.
    pub running: bool,
    pub state: AppState,
    pub logs: LogBuffer,
    pub install: InstallProgress,
    pub env_exists: bool,
    pub config_exists: bool,
    pub form_data: FormData,
    pub menu_selection: MenuSelection,
    pub config_selection_index: usize,
    pub update_infos: Vec<UpdateInfo>,
    pub update_selection_index: usize,
    pub update_message: Option<String>,
    pub registry_form: RegistryForm,
    pub registry_status: Option<String>,
    pub ghcr_token: Option<String>,
}

/// Which parts of the wizard an operation may change.
pub struct Frame {
    pub running: bool,
    pub state: bool,
    pub logs: bool,
    pub install: bool,
    pub files: bool,
    pub form_data: bool,
    pub menu_selection: bool,
    pub config_selection_index: bool,
    pub update_infos: bool,
    pub update_selection_index: bool,
    pub update_message: bool,
    pub registry_form: bool,
    pub registry_status: bool,
    pub ghcr_token: bool,
}

/// The frame of an operation that changes nothing.
pub open spec fn nothing() -> Frame {
    Frame {
        running: false,
        state: false,
        logs: false,
        install: false,
        files: false,
        form_data: false,
        menu_selection: false,
        config_selection_index: false,
        update_infos: false,
        update_selection_index: false,
        update_message: false,
        registry_form: false,
        registry_status: false,
        ghcr_token: false,
    }
}

/// Every part of the wizard that `frame` does not name is the same in `before` and `after`.
pub open spec fn framed(before: App, after: App, frame: Frame) -> bool {
    &&& frame.running || after.running == before.running
    &&& frame.state || after.state == before.state
    &&& frame.logs || after.logs == before.logs
    &&& frame.install || after.install == before.install
    &&& frame.files || (after.env_exists == before.env_exists && after.config_exists
        == before.config_exists)
    &&& frame.form_data || after.form_data == before.form_data
    &&& frame.menu_selection || after.menu_selection == before.menu_selection
    &&& frame.config_selection_index || after.config_selection_index
        == before.config_selection_index
    &&& frame.update_infos || after.update_infos == before.update_infos
    &&& frame.update_selection_index || after.update_selection_index
        == before.update_selection_index
    &&& frame.update_message || after.update_message == before.update_message
    &&& frame.registry_form || after.registry_form == before.registry_form
    &&& frame.registry_status || after.registry_status == before.registry_status
    &&& frame.ghcr_token || after.ghcr_token == before.ghcr_token
}

/// The entries of the menu that the wizard offers in its present condition.
pub open spec fn options_of(w: App) -> Seq<MenuSelection> {
    listed_options(w.ghcr_token is Some, w.config_exists, w.env_exists)
}

/// The index of the selected update once it is held to the list: the last
/// entry where it pointed beyond, 0 where the list is empty.
pub open spec fn clamped_index(index: usize, len: nat) -> usize {
    if index < len {
        index
    } else if len == 0 {
        0
    } else {
        (len - 1) as usize
    }
}

/// The index above `index` in a list of `len` entries; above the first comes the last.
pub open spec fn index_above(index: usize, len: nat) -> usize {
    if len == 0 {
        index
    } else if index == 0 {
        (len - 1) as usize
    } else {
        (index - 1) as usize
    }
}

/// The index below `index` in a list of `len` entries; below the last comes the first.
pub open spec fn index_below(index: usize, len: nat) -> usize {
    if len == 0 {
        index
    } else if index + 1 >= len {
        0
    } else {
        (index + 1) as usize
    }
}

/// Moves an index up by one place, from the first place to the last.
pub fn move_up(index: usize, len: usize) -> (r: usize)
    ensures
        r == index_above(index, len as nat),
{
    if len == 0 {
        index
    } else if index == 0 {
        len - 1
    } else {
        index - 1
    }
}

/// Moves an index down by one place, from the last place to the first.
pub fn move_down(index: usize, len: usize) -> (r: usize)
    ensures
        r == index_below(index, len as nat),
{
    if len == 0 {
        index
    } else if index >= len - 1 {
        0
    } else {
        index + 1
    }
}

/// Whether the credential form takes the key as text.
pub open spec fn registry_editing(form: RegistryForm) -> bool {
    form.editing && form.current_field == 0
}

/// The token on the credential form after the key.
pub open spec fn registry_token_after(form: RegistryForm, key: KeyPress) -> Seq<char> {
    if registry_editing(form) {
        match key.key {
            Key::Backspace => if form.token@.len() > 0 {
                form.token@.drop_last()
            } else {
                form.token@
            },
            Key::Char(c) => if key.ctrl {
                form.token@
            } else {
                form.token@.push(c)
            },
            _ => form.token@,
        }
    } else {
        form.token@
    }
}

/// The item of the credential form on which the cursor stands after the key.
pub open spec fn registry_field_after(form: RegistryForm, key: KeyPress) -> usize {
    if registry_editing(form) {
        form.current_field
    } else {
        match key.key {
            Key::Up => index_above(form.current_field, 2),
            Key::Down => index_below(form.current_field, 2),
            Key::Tab => index_below(form.current_field, 2),
            _ => form.current_field,
        }
    }
}

/// Whether the credential form is being edited after the key.
pub open spec fn registry_editing_after(form: RegistryForm, key: KeyPress) -> bool {
    if registry_editing(form) {
        match key.key {
            Key::Enter => false,
            Key::Esc => false,
            _ => true,
        }
    } else {
        match key.key {
            Key::Enter => form.current_field == 0 || form.editing,
            _ => form.editing,
        }
    }
}

/// What the key asks for on the credential screen.
pub open spec fn registry_action(form: RegistryForm, key: KeyPress) -> Option<RegistryAction> {
    if registry_editing(form) {
        None
    } else {
        match key.key {
            Key::Enter => if form.current_field == 0 {
                None
            } else {
                Some(RegistryAction::Submit)
            },
            Key::Char(c) => if c == 's' {
                if key.ctrl {
                    Some(RegistryAction::Submit)
                } else {
                    None
                }
            } else if c == 'q' {
                Some(RegistryAction::Skip)
            } else {
                None
            },
            Key::Esc => Some(RegistryAction::Skip),
            _ => None,
        }
    }
}

/// The selection of the menu after the key: first held to the entries on
/// offer, then moved by the arrow keys and Tab.
pub open spec fn menu_selection_after(w: App, key: KeyPress) -> MenuSelection {
    let options = options_of(w);
    let current = clamped(options, w.menu_selection);
    match key.key {
        Key::Up => entry_above(options, current),
        Key::Down => entry_below(options, current),
        Key::Tab => entry_below(options, current),
        _ => current,
    }
}

/// What the key asks for on the menu.
pub open spec fn menu_action(w: App, key: KeyPress) -> Option<MenuSelection> {
    match key.key {
        Key::Enter => Some(clamped(options_of(w), w.menu_selection)),
        Key::Esc => Some(MenuSelection::Cancel),
        Key::Char(c) => if c == 'q' || (c == 'c' && key.ctrl) {
            Some(MenuSelection::Cancel)
        } else {
            None
        },
        _ => None,
    }
}

/// Number of fields on the key form.
pub open spec fn field_count(form: FormData) -> usize {
    if uses_openai_embedding(form.selected_provider@) {
        2
    } else {
        1
    }
}

/// A text after a key is typed into it: a character is appended, Backspace
/// takes the last character away, and every other key leaves the text alone.
pub open spec fn typed(text: Seq<char>, key: KeyPress) -> Seq<char> {
    match key.key {
        Key::Char(c) => text.push(c),
        Key::Backspace => if text.len() > 0 {
            text.drop_last()
        } else {
            text
        },
        _ => text,
    }
}

/// The provider's key on the key form after the key.
pub open spec fn api_key_after(form: FormData, key: KeyPress) -> Seq<char> {
    if form.editing && form.current_field != 1 {
        typed(form.api_key@, key)
    } else {
        form.api_key@
    }
}

/// The OpenAI key on the key form after the key.
pub open spec fn openai_key_after(form: FormData, key: KeyPress) -> Seq<char> {
    if form.editing && form.current_field == 1 {
        typed(form.openai_api_key@, key)
    } else {
        form.openai_api_key@
    }
}

/// The field of the key form on which the cursor stands after the key.
pub open spec fn form_field_after(form: FormData, key: KeyPress) -> usize {
    if form.editing {
        form.current_field
    } else {
        match key.key {
            Key::Up => if form.current_field > 0 {
                (form.current_field - 1) as usize
            } else {
                form.current_field
            },
            Key::Down => if form.current_field < field_count(form) - 1 {
                (form.current_field + 1) as usize
            } else {
                form.current_field
            },
            Key::Tab => if form.current_field < field_count(form) - 1 {
                (form.current_field + 1) as usize
            } else {
                form.current_field
            },
            _ => form.current_field,
        }
    }
}

/// Whether the key form is being edited after the key.
pub open spec fn form_editing_after(form: FormData, key: KeyPress) -> bool {
    if form.editing {
        match key.key {
            Key::Enter => false,
            Key::Esc => false,
            _ => true,
        }
    } else {
        match key.key {
            Key::Enter => form.current_field < field_count(form),
            _ => false,
        }
    }
}

/// Whether the key asks to save the key form.
pub open spec fn form_saves(form: FormData, key: KeyPress) -> bool {
    !form.editing && key.ctrl && key.key == Key::Char('s')
}

/// What the key asks for on the key form: `true` to write the environment
/// file, which takes a form without fault, `false` to go back to the menu.
pub open spec fn form_action(form: FormData, key: KeyPress) -> Option<bool> {
    if form.editing {
        None
    } else {
        match key.key {
            Key::Esc => Some(false),
            Key::Char(c) => if c == 's' && key.ctrl {
                if form_error(form) is None {
                    Some(true)
                } else {
                    None
                }
            } else if c == 'q' || (c == 'c' && key.ctrl) {
                Some(false)
            } else {
                None
            },
            _ => None,
        }
    }
}

/// The message of the key form after the key: saving sets it to what is
/// wrong with the form, or empties it.
pub open spec fn form_message_after(form: FormData, key: KeyPress) -> Seq<char> {
    if form_saves(form, key) {
        match form_error(form) {
            Some(message) => message,
            None => Seq::empty(),
        }
    } else {
        form.error_message@
    }
}

/// The selected template after the key.
pub open spec fn config_index_after(index: usize, key: KeyPress) -> usize {
    let held = clamped_index(index, TEMPLATE_COUNT as nat);
    match key.key {
        Key::Up => index_above(held, TEMPLATE_COUNT as nat),
        Key::Down => index_below(held, TEMPLATE_COUNT as nat),
        Key::Tab => index_below(held, TEMPLATE_COUNT as nat),
        _ => held,
    }
}

/// What the key asks for on the list of templates.
pub open spec fn config_action(index: usize, key: KeyPress) -> Option<ConfigAction> {
    match key.key {
        Key::Enter => Some(ConfigAction::Write(clamped_index(index, TEMPLATE_COUNT as nat))),
        Key::Esc => Some(ConfigAction::Back),
        Key::Char(c) => if c == 'q' {
            Some(ConfigAction::Back)
        } else {
            None
        },
        _ => None,
    }
}

/// The selected update after the key.
pub open spec fn update_index_after(index: usize, len: nat, key: KeyPress) -> usize {
    let held = clamped_index(index, len);
    match key.key {
        Key::Up => index_above(held, len),
        Key::Down => index_below(held, len),
        Key::Tab => index_below(held, len),
        _ => held,
    }
}

/// What the key asks for on the list of updates.
pub open spec fn update_action(len: nat, key: KeyPress) -> Option<UpdateListAction> {
    match key.key {
        Key::Enter => if len > 0 {
            Some(UpdateListAction::Pull)
        } else {
            None
        },
        Key::Esc => Some(UpdateListAction::Back),
        Key::Char(c) => if c == 'p' || c == 'P' {
            if len > 0 {
                Some(UpdateListAction::Pull)
            } else {
                None
            }
        } else if c == 'r' || c == 'R' {
            Some(UpdateListAction::Refresh)
        } else if c == 'q' || c == 'Q' {
            Some(UpdateListAction::Back)
        } else {
            None
        },
        _ => None,
    }
}

/// Whether every entry of the list is sound.
pub fn all_sound(infos: &Vec<UpdateInfo>) -> (r: bool)
    ensures
        r == (forall|i: int| 0 <= i < infos@.len() ==> (#[trigger] infos@[i]).wf()),
{
    let mut i: usize = 0;
    while i < infos.len()
        invariant
            i <= infos.len(),
            forall|k: int| 0 <= k < i ==> (#[trigger] infos@[k]).wf(),
        decreases infos.len() - i,
    {
        if !infos[i].is_sound() {
            return false;
        }
        i += 1;
    }
    true
}

impl App {
    /// What holds of the wizard between any two operations: the installation
    /// progress is sound, every entry of the list of updates is sound, and
    /// the selection of the menu is an entry on offer.
    pub open spec fn wf(&self) -> bool {
        &&& self.install.wf()
        &&& forall|i: int| 0 <= i < self.update_infos@.len() ==> (#[trigger] self.update_infos@[i]).wf()
        &&& is_available(
            self.menu_selection,
            self.ghcr_token is Some,
            self.config_exists,
            self.env_exists,
        )
    }

    /// Whether the wizard is sound; see [`App::wf`].
    pub fn is_sound(&self) -> (r: bool)
        ensures
            r == self.wf(),
    {
        if !self.install.is_sound() {
            return false;
        }
        if !available(
            self.menu_selection,
            self.ghcr_token.is_some(),
            self.config_exists,
            self.env_exists,
        ) {
            return false;
        }
        all_sound(&self.update_infos)
    }

    /// The wizard at start-up. Without a credential it opens on the
    /// credential screen, with one on the menu.
    pub fn new(token: Option<String>, env_exists: bool, config_exists: bool) -> (w: App)
        ensures
            w.wf(),
            w.running,
            w.state == (if token is Some {
                AppState::Confirmation
            } else {
                AppState::RegistrySetup
            }),
            w.ghcr_token == token,
            w.registry_form.token@ == (match token {
                Some(t) => t@,
                None => Seq::empty(),
            }),
            w.registry_form.current_field == 0,
            !w.registry_form.editing,
            w.env_exists == env_exists,
            w.config_exists == config_exists,
            w.menu_selection == clamped(
                listed_options(token is Some, config_exists, env_exists),
                MenuSelection::Proceed,
            ),
            w.registry_form.error_message@.len() == 0,
            w.logs@.len() == 0,
            w.install.phase == Phase::Build,
            w.install.progress == 0,
            w.install.current_service@.len() == 0,
            w.install.total_services == SERVICE_COUNT,
            w.install.completed_services == 0,
            w.form_data.api_key@.len() == 0,
            w.form_data.openai_api_key@.len() == 0,
            w.form_data.selected_provider@.len() == 0,
            w.form_data.current_field == 0,
            !w.form_data.editing,
            w.form_data.error_message@.len() == 0,
            w.config_selection_index == 0,
            w.update_infos@.len() == 0,
            w.update_selection_index == 0,
            w.update_message is None,
            w.registry_status is None,
    {
        let mut registry_form = RegistryForm::new();
        let state = match &token {
            Some(t) => {
                registry_form.token = t.clone();
                AppState::Confirmation
            },
            None => AppState::RegistrySetup,
        };
        let options = menu_options(token.is_some(), config_exists, env_exists);
        let menu_selection = clamp_selection(&options, MenuSelection::Proceed);
        App {
            running: true,
            state,
            logs: LogBuffer::new(),
            install: InstallProgress::new(),
            env_exists,
            config_exists,
            form_data: FormData::new(),
            menu_selection,
            config_selection_index: 0,
            update_infos: Vec::new(),
            update_selection_index: 0,
            update_message: None,
            registry_form,
            registry_status: None,
            ghcr_token: token,
        }
    }

    /// Whether the wizard shows the error screen.
    pub fn showing_error(&self) -> (r: bool)
        ensures
            r == (self.state is Error),
    {
        match &self.state {
            AppState::Error(_) => true,
            _ => false,
        }
    }

    /// The entries of the menu on offer.
    pub fn menu_options(&self) -> (options: Vec<MenuSelection>)
        ensures
            options@ == options_of(*self),
            options@.len() >= 2,
            forall|e: MenuSelection|
                options@.contains(e) <==> is_available(
                    e,
                    self.ghcr_token is Some,
                    self.config_exists,
                    self.env_exists,
                ),
    {
        menu_options(self.ghcr_token.is_some(), self.config_exists, self.env_exists)
    }

    /// Holds the selection of the menu to the entries on offer: a selection
    /// that is no longer on offer falls back to the first entry.
    pub fn ensure_menu_selection(&mut self)
        ensures
            final(self).menu_selection == clamped(options_of(*old(self)), old(self).menu_selection),
            is_available(
                final(self).menu_selection,
                final(self).ghcr_token is Some,
                final(self).config_exists,
                final(self).env_exists,
            ),
            framed(*old(self), *final(self), Frame { menu_selection: true, ..nothing() }),
    {
        let options = self.menu_options();
        self.menu_selection = clamp_selection(&options, self.menu_selection);
    }

    /// Holds the selected update to the list.
    pub fn ensure_update_selection(&mut self)
        ensures
            final(self).update_selection_index == clamped_index(
                old(self).update_selection_index,
                old(self).update_infos@.len(),
            ),
            framed(*old(self), *final(self), Frame { update_selection_index: true, ..nothing() }),
    {
        let len = self.update_infos.len();
        if self.update_selection_index >= len {
            self.update_selection_index = if len == 0 {
                0
            } else {
                len - 1
            };
        }
    }

    /// Appends a line to the transcript, which keeps the latest hundred lines.
    pub fn add_log(&mut self, message: &str)
        ensures
            final(self).logs@ == appended(old(self).logs@, message@),
            framed(*old(self), *final(self), Frame { logs: true, ..nothing() }),
    {
        self.logs.push(message);
    }

    /// Takes in one raw line of output of the installation: the progress and
    /// the service worked on follow the line, and the line to show for it, if
    /// any, goes to the transcript.
    pub fn process_log_line(&mut self, line: &str)
        requires
            old(self).wf(),
        ensures
            final(self).wf(),
            old(self).state is Error ==> *final(self) == *old(self),
            !(old(self).state is Error) ==> ({
                &&& old(self).install.observed(line@, final(self).install)
                &&& final(self).install.progress >= old(self).install.progress
                &&& final(self).logs@ == (match crate::interpreter::display_line(
                    crate::interpreter::line_kind(line@),
                    line@,
                    final(self).install.completed_services,
                    final(self).install.total_services,
                ) {
                    Some(shown) => appended(old(self).logs@, shown),
                    None => old(self).logs@,
                })
                &&& framed(*old(self), *final(self), Frame { logs: true, install: true, ..nothing() })
            }),
    {
        if self.showing_error() {
            return ;
        }
        match self.install.observe(line) {
            Some(shown) => {
                self.logs.push(shown.as_str());
            },
            None => {},
        }
    }

    /// Takes in a key on the credential screen.
    pub fn handle_registry_setup_events(&mut self, key: KeyPress) -> (action: Option<RegistryAction>)
        ensures
            action == registry_action(old(self).registry_form, key),
            final(self).registry_form.token@ == registry_token_after(old(self).registry_form, key),
            final(self).registry_form.current_field == registry_field_after(
                old(self).registry_form,
                key,
            ),
            final(self).registry_form.editing == registry_editing_after(
                old(self).registry_form,
                key,
            ),
            final(self).registry_form.error_message == old(self).registry_form.error_message,
            final(self).running == (old(self).running && (registry_editing(old(self).registry_form)
                || !key.is_force_quit())),
            framed(
                *old(self),
                *final(self),
                Frame { running: true, registry_form: true, ..nothing() },
            ),
    {
        if self.registry_form.editing && RegistryForm::is_input_field(
            self.registry_form.current_field,
        ) {
            match key.key {
                Key::Enter => {
                    self.registry_form.editing = false;
                },
                Key::Esc => {
                    self.registry_form.editing = false;
                },
                Key::Backspace => {
                    let _ = pop_char(&mut self.registry_form.token);
                },
                Key::Char(c) => {
                    if !key.ctrl {
                        push_char(&mut self.registry_form.token, c);
                    }
                },
                _ => {},
            }
            None
        } else {
            match key.key {
                Key::Up => {
                    self.registry_form.current_field = move_up(self.registry_form.current_field, 2);
                    None
                },
                Key::Down => {
                    self.registry_form.current_field = move_down(
                        self.registry_form.current_field,
                        2,
                    );
                    None
                },
                Key::Tab => {
                    self.registry_form.current_field = move_down(
                        self.registry_form.current_field,
                        2,
                    );
                    None
                },
                Key::Enter => {
                    if RegistryForm::is_input_field(self.registry_form.current_field) {
                        self.registry_form.editing = true;
                        None
                    } else {
                        Some(RegistryAction::Submit)
                    }
                },
                Key::Esc => Some(RegistryAction::Skip),
                Key::Char(c) => {
                    if c == 's' {
                        if key.ctrl {
                            Some(RegistryAction::Submit)
                        } else {
                            None
                        }
                    } else if c == 'q' {
                        Some(RegistryAction::Skip)
                    } else {
                        if c == 'c' && key.ctrl {
                            self.running = false;
                        }
                        None
                    }
                },
                _ => None,
            }
        }
    }

    /// Takes in a key on the menu. The selection is first held to the
    /// entries on offer; the arrow keys and Tab then move it among them,
    /// wrapping at both ends.
    pub fn handle_confirmation_events(&mut self, key: KeyPress) -> (action: Option<MenuSelection>)
        ensures
            action == menu_action(*old(self), key),
            final(self).menu_selection == menu_selection_after(*old(self), key),
            is_available(
                final(self).menu_selection,
                final(self).ghcr_token is Some,
                final(self).config_exists,
                final(self).env_exists,
            ),
            framed(*old(self), *final(self), Frame { menu_selection: true, ..nothing() }),
    {
        self.ensure_menu_selection();
        let options = self.menu_options();
        match key.key {
            Key::Up => {
                self.menu_selection = select_above(&options, self.menu_selection);
                None
            },
            Key::Down => {
                self.menu_selection = select_below(&options, self.menu_selection);
                None
            },
            Key::Tab => {
                self.menu_selection = select_below(&options, self.menu_selection);
                None
            },
            Key::Enter => Some(self.menu_selection),
            Key::Esc => Some(MenuSelection::Cancel),
            Key::Char(c) => {
                if c == 'q' || (c == 'c' && key.ctrl) {
                    Some(MenuSelection::Cancel)
                } else {
                    None
                }
            },
            _ => None,
        }
    }

    /// Takes in a key on the key form.
    pub fn handle_form_events(&mut self, key: KeyPress) -> (action: Option<bool>)
        ensures
            action == form_action(old(self).form_data, key),
            final(self).form_data.api_key@ == api_key_after(old(self).form_data, key),
            final(self).form_data.openai_api_key@ == openai_key_after(old(self).form_data, key),
            final(self).form_data.current_field == form_field_after(old(self).form_data, key),
            final(self).form_data.editing == form_editing_after(old(self).form_data, key),
            final(self).form_data.error_message@ == form_message_after(old(self).form_data, key),
            final(self).form_data.selected_provider == old(self).form_data.selected_provider,
            framed(*old(self), *final(self), Frame { form_data: true, ..nothing() }),
    {
        if self.form_data.editing {
            match key.key {
                Key::Enter => {
                    self.form_data.editing = false;
                },
                Key::Esc => {
                    self.form_data.editing = false;
                },
                Key::Char(c) => {
                    if self.form_data.current_field == 1 {
                        push_char(&mut self.form_data.openai_api_key, c);
                    } else {
                        push_char(&mut self.form_data.api_key, c);
                    }
                },
                Key::Backspace => {
                    if self.form_data.current_field == 1 {
                        let _ = pop_char(&mut self.form_data.openai_api_key);
                    } else {
                        let _ = pop_char(&mut self.form_data.api_key);
                    }
                },
                _ => {},
            }
            None
        } else {
            let total = self.form_data.get_total_fields();
            match key.key {
                Key::Enter => {
                    if self.form_data.current_field < total {
                        self.form_data.editing = true;
                    }
                    None
                },
                Key::Up => {
                    if self.form_data.current_field > 0 {
                        self.form_data.current_field = self.form_data.current_field - 1;
                    }
                    None
                },
                Key::Down => {
                    if self.form_data.current_field < total - 1 {
                        self.form_data.current_field = self.form_data.current_field + 1;
                    }
                    None
                },
                Key::Tab => {
                    if self.form_data.current_field < total - 1 {
                        self.form_data.current_field = self.form_data.current_field + 1;
                    }
                    None
                },
                Key::Esc => Some(false),
                Key::Char(c) => {
                    if c == 's' && key.ctrl {
                        if self.form_data.validate() {
                            Some(true)
                        } else {
                            None
                        }
                    } else if c == 'q' || (c == 'c' && key.ctrl) {
                        Some(false)
                    } else {
                        None
                    }
                },
                _ => None,
            }
        }
    }

    /// Takes in a key on the list of templates.
    pub fn handle_config_selection_events(&mut self, key: KeyPress) -> (action: Option<ConfigAction>)
        ensures
            action == config_action(old(self).config_selection_index, key),
            final(self).config_selection_index == config_index_after(
                old(self).config_selection_index,
                key,
            ),
            final(self).config_selection_index < TEMPLATE_COUNT,
            final(self).running == (old(self).running && !key.is_force_quit()),
            framed(
                *old(self),
                *final(self),
                Frame { running: true, config_selection_index: true, ..nothing() },
            ),
    {
        if self.config_selection_index >= TEMPLATE_COUNT {
            self.config_selection_index = TEMPLATE_COUNT - 1;
        }
        match key.key {
            Key::Up => {
                self.config_selection_index = move_up(self.config_selection_index, TEMPLATE_COUNT);
                None
            },
            Key::Down => {
                self.config_selection_index = move_down(self.config_selection_index, TEMPLATE_COUNT);
                None
            },
            Key::Tab => {
                self.config_selection_index = move_down(self.config_selection_index, TEMPLATE_COUNT);
                None
            },
            Key::Enter => Some(ConfigAction::Write(self.config_selection_index)),
            Key::Esc => Some(ConfigAction::Back),
            Key::Char(c) => {
                if c == 'q' {
                    Some(ConfigAction::Back)
                } else {
                    if c == 'c' && key.ctrl {
                        self.running = false;
                    }
                    None
                }
            },
            _ => None,
        }
    }

    /// Takes in a key on the list of updates.
    pub fn handle_update_list_events(&mut self, key: KeyPress) -> (action: Option<UpdateListAction>)
        ensures
            action == update_action(old(self).update_infos@.len(), key),
            final(self).update_selection_index == update_index_after(
                old(self).update_selection_index,
                old(self).update_infos@.len(),
                key,
            ),
            old(self).update_infos@.len() > 0 ==> final(self).update_selection_index < old(
                self,
            ).update_infos@.len(),
            final(self).running == (old(self).running && !key.is_force_quit()),
            framed(
                *old(self),
                *final(self),
                Frame { running: true, update_selection_index: true, ..nothing() },
            ),
    {
        self.ensure_update_selection();
        let len = self.update_infos.len();
        match key.key {
            Key::Up => {
                self.update_selection_index = move_up(self.update_selection_index, len);
                None
            },
            Key::Down => {
                self.update_selection_index = move_down(self.update_selection_index, len);
                None
            },
            Key::Tab => {
                self.update_selection_index = move_down(self.update_selection_index, len);
                None
            },
            Key::Enter => {
                if len > 0 {
                    Some(UpdateListAction::Pull)
                } else {
                    None
                }
            },
            Key::Esc => Some(UpdateListAction::Back),
            Key::Char(c) => {
                if c == 'p' || c == 'P' {
                    if len > 0 {
                        Some(UpdateListAction::Pull)
                    } else {
                        None
                    }
                } else if c == 'r' || c == 'R' {
                    Some(UpdateListAction::Refresh)
                } else if c == 'q' || c == 'Q' {
                    Some(UpdateListAction::Back)
                } else {
                    if c == 'c' && key.ctrl {
                        self.running = false;
                    }
                    None
                }
            },
            _ => None,
        }
    }

    /// Takes in a key while an operation runs or after the wizard has come to
    /// its end: only the force-quit shortcut is heeded.
    pub fn handle_busy_events(&mut self, key: KeyPress)
        ensures
            final(self).running == (old(self).running && !key.is_force_quit()),
            framed(*old(self), *final(self), Frame { running: true, ..nothing() }),
    {
        if key.force_quit() {
            self.running = false;
        }
    }
}

/// Moving the selection of the menu never leaves the entries on offer, and it
/// wraps at both ends: Up from the first entry gives the last, Down from the
/// last entry gives the first.
pub proof fn lemma_menu_cycling(w: App, key: KeyPress)
    ensures
        options_of(w).contains(menu_selection_after(w, key)),
        w.menu_selection == options_of(w)[0] && key.key == Key::Up ==> menu_selection_after(w, key)
            == options_of(w).last(),
        w.menu_selection == options_of(w).last() && (key.key == Key::Down || key.key == Key::Tab)
            ==> menu_selection_after(w, key) == options_of(w)[0],
{
    let options = options_of(w);
    lemma_listed_options(w.ghcr_token is Some, w.config_exists, w.env_exists);
    let current = clamped(options, w.menu_selection);
    crate::menu::lemma_cycling_stays_on_offer(
        w.ghcr_token is Some,
        w.config_exists,
        w.env_exists,
        current,
    );
}

} // verus!
