//! One turn of the wizard, and what the wizard makes of the outcome of the
//! outside work that it asked for.
//!
//! The caller's loop draws the screen, reads a key and hands it to
//! [`App::step`]. Where `step` returns an [`Effect`], the caller does the
//! work and reports the outcome through the function that belongs to it.
//! Failures of an operation lead to the error screen with the failure's
//! message; faults of the operator's input are shown on the form and lead
//! nowhere. The error screen is final: no key but the force-quit shortcut
//! does anything on it, and no outcome reported while it shows changes the
//! wizard.

use vstd::prelude::*;
use vstd::string::*;
use crate::auth::{login_rejection, rejection_message, LoginOutcome};
use crate::interpreter::{Phase, COMPLETE, DEPLOY_BASE};
use crate::log_buffer::appended;
use crate::menu::{clamped, is_available};
use crate::registry::{inspected_time, LocalInspection};
use crate::registry_form::token_required;
use crate::state::{AppState, KeyPress, MenuSelection};
use crate::supervisor::Stream;
use crate::templates::{config_template, template_key, TEMPLATE_COUNT};
use crate::text::{is_blank, join2, occurs_in, trim, trimmed};
use crate::updates::{inspection_note, noted, opt_text, update_due, UpdateInfo};
use crate::wizard::{
    api_key_after, clamped_index, config_action, config_index_after, form_action,
    form_editing_after, form_field_after, form_message_after, framed, menu_action,
    menu_selection_after, nothing, openai_key_after, options_of, registry_action,
    registry_editing, registry_editing_after, registry_field_after, registry_token_after,
    update_action, update_index_after, Command, ConfigAction, Effect, EffectView, Frame,
    RegistryAction, UpdateListAction, App,
};

verus! {

/// Shown after the operator passes over the login.
pub open spec fn skip_notice() -> Seq<char> {
    "Skipped GHCR login; you can authenticate later from the menu."@
}

/// Shown when updates are asked for without a credential.
pub open spec fn auth_required_notice() -> Seq<char> {
    "Authentication required to check for updates."@
}

/// Shown while the identity service is asked.
pub open spec fn resolving_notice() -> Seq<char> {
    "Resolving GitHub username from token..."@
}

/// Shown while the login command runs.
pub open spec fn logging_in_notice() -> Seq<char> {
    "Logging in to ghcr.io..."@
}

/// Shown after the registry has accepted the credential.
pub open spec fn authenticated_notice() -> Seq<char> {
    "Authenticated with ghcr.io successfully"@
}

/// Shown above a list of updates that holds entries.
pub open spec fn update_hint() -> Seq<char> {
    "Use ↑/↓ to pick a service, Enter or P to pull :latest, R to refresh, Esc to go back"@
}

/// Shown above an empty list of updates.
pub open spec fn no_services_notice() -> Seq<char> {
    "No GHCR-backed services were found in docker-compose.yaml"@
}

/// Shown after an image was pulled.
pub open spec fn refreshed_notice() -> Seq<char> {
    "Image refreshed. Press R to fetch remote metadata again."@
}

/// The transcript after the three lines that open an installation.
pub open spec fn install_opening(logs: Seq<Seq<char>>) -> Seq<Seq<char>> {
    appended(
        appended(
            appended(logs, "🚀 Starting Analytics installation..."@),
            "🔨 Step 1/2: Building images..."@,
        ),
        "📦 Executing: docker compose build"@,
    )
}

/// The transcript after the three lines that lead from the build to the start of the services.
pub open spec fn deploy_opening(logs: Seq<Seq<char>>) -> Seq<Seq<char>> {
    appended(
        appended(
            appended(logs, "✅ Build completed successfully!"@),
            "🚀 Step 2/2: Starting services..."@,
        ),
        "📦 Executing: docker compose up -d"@,
    )
}

/// The wizard shows the error screen with this message.
pub open spec fn shows_error(w: App, message: Seq<char>) -> bool {
    w.state matches AppState::Error(m) && m@ == message
}

/// `after` is `before` after a key on the credential screen, and `effect` is what the key calls for.
pub open spec fn registry_setup_stepped(
    before: App,
    key: KeyPress,
    after: App,
    effect: EffectView,
) -> bool {
    &&& after.registry_form.token@ == registry_token_after(before.registry_form, key)
    &&& after.registry_form.current_field == registry_field_after(before.registry_form, key)
    &&& after.registry_form.editing == registry_editing_after(before.registry_form, key)
    &&& after.running == (before.running && (registry_editing(before.registry_form)
        || !key.is_force_quit()))
    &&& framed(
        before,
        after,
        Frame {
            running: true,
            state: true,
            menu_selection: true,
            registry_form: true,
            registry_status: true,
            ..nothing()
        },
    )
    &&& match registry_action(before.registry_form, key) {
        None => {
            &&& effect is Idle
            &&& after.state == before.state
            &&& after.menu_selection == before.menu_selection
            &&& after.registry_status == before.registry_status
            &&& after.registry_form.error_message == before.registry_form.error_message
        },
        Some(RegistryAction::Skip) => {
            &&& effect is Idle
            &&& after.state == AppState::Confirmation
            &&& after.menu_selection == clamped(options_of(before), before.menu_selection)
            &&& opt_text(after.registry_status) == Some(skip_notice())
            &&& after.registry_form.error_message == before.registry_form.error_message
        },
        Some(RegistryAction::Submit) => {
            &&& after.state == before.state
            &&& after.menu_selection == before.menu_selection
            &&& if is_blank(before.registry_form.token@) {
                &&& effect is Idle
                &&& after.registry_form.error_message@ == token_required()
                &&& opt_text(after.registry_status) == Some(token_required())
            } else {
                &&& effect == (EffectView::ResolveUsername {
                    token: trimmed(before.registry_form.token@),
                })
                &&& after.registry_form.error_message@.len() == 0
                &&& opt_text(after.registry_status) == Some(resolving_notice())
            }
        },
    }
}

/// `after` is `before` after a key on the menu, and `effect` is what the key calls for.
pub open spec fn confirmation_stepped(
    before: App,
    key: KeyPress,
    after: App,
    effect: EffectView,
) -> bool {
    &&& after.menu_selection == menu_selection_after(before, key)
    &&& framed(
        before,
        after,
        Frame {
            running: true,
            state: true,
            logs: true,
            menu_selection: true,
            config_selection_index: true,
            registry_status: true,
            ..nothing()
        },
    )
    &&& match menu_action(before, key) {
        Some(MenuSelection::Proceed) => if before.env_exists && before.config_exists {
            &&& effect == EffectView::Run(Command::ComposeBuild)
            &&& after.state == AppState::Installing
            &&& after.logs@ == install_opening(before.logs@)
            &&& after.running == before.running
            &&& after.config_selection_index == before.config_selection_index
            &&& after.registry_status == before.registry_status
        } else {
            &&& effect is Idle
            &&& framed(before, after, Frame { menu_selection: true, ..nothing() })
        },
        Some(MenuSelection::GenerateEnv) => {
            &&& effect is Idle
            &&& if !before.config_exists || before.form_data.selected_provider@.len() == 0 {
                after.state == AppState::ConfigSelection && after.config_selection_index == 0
            } else {
                after.state == AppState::EnvSetup && after.config_selection_index
                    == before.config_selection_index
            }
            &&& after.logs == before.logs
            &&& after.running == before.running
            &&& after.registry_status == before.registry_status
        },
        Some(MenuSelection::GenerateConfig) => {
            &&& effect is Idle
            &&& after.state == AppState::ConfigSelection
            &&& after.config_selection_index == 0
            &&& after.logs == before.logs
            &&& after.running == before.running
            &&& after.registry_status == before.registry_status
        },
        Some(MenuSelection::CheckUpdates) => match before.ghcr_token {
            None => {
                &&& effect is Idle
                &&& after.state == AppState::RegistrySetup
                &&& opt_text(after.registry_status) == Some(auth_required_notice())
                &&& after.logs == before.logs
                &&& after.running == before.running
                &&& after.config_selection_index == before.config_selection_index
            },
            Some(token) => {
                &&& effect == (EffectView::FetchUpdates { token: Some(token@) })
                &&& after.state == before.state
                &&& after.logs@.len() == 0
                &&& after.running == before.running
                &&& after.config_selection_index == before.config_selection_index
                &&& after.registry_status == before.registry_status
            },
        },
        Some(MenuSelection::UpdateToken) => {
            &&& effect is Idle
            &&& after.state == AppState::RegistrySetup
            &&& framed(before, after, Frame { state: true, menu_selection: true, ..nothing() })
        },
        Some(MenuSelection::Cancel) => {
            &&& effect is Idle
            &&& !after.running
            &&& framed(before, after, Frame { running: true, menu_selection: true, ..nothing() })
        },
        None => {
            &&& effect is Idle
            &&& framed(before, after, Frame { menu_selection: true, ..nothing() })
        },
    }
}

/// `after` is `before` after a key on the key form, and `effect` is what the key calls for.
pub open spec fn env_setup_stepped(
    before: App,
    key: KeyPress,
    after: App,
    effect: EffectView,
) -> bool {
    &&& after.form_data.api_key@ == api_key_after(before.form_data, key)
    &&& after.form_data.openai_api_key@ == openai_key_after(before.form_data, key)
    &&& after.form_data.current_field == form_field_after(before.form_data, key)
    &&& after.form_data.editing == form_editing_after(before.form_data, key)
    &&& after.form_data.error_message@ == form_message_after(before.form_data, key)
    &&& after.form_data.selected_provider == before.form_data.selected_provider
    &&& framed(before, after, Frame { state: true, form_data: true, ..nothing() })
    &&& match form_action(before.form_data, key) {
        Some(write) => if write {
            effect is WriteEnv && after.state == before.state
        } else {
            effect is Idle && after.state == AppState::Confirmation
        },
        None => effect is Idle && after.state == before.state,
    }
}

/// `after` is `before` after a key on the list of templates, and `effect` is what the key calls for.
pub open spec fn config_selection_stepped(
    before: App,
    key: KeyPress,
    after: App,
    effect: EffectView,
) -> bool {
    &&& after.config_selection_index == config_index_after(before.config_selection_index, key)
    &&& after.running == (before.running && !key.is_force_quit())
    &&& framed(
        before,
        after,
        Frame { running: true, state: true, config_selection_index: true, ..nothing() },
    )
    &&& match config_action(before.config_selection_index, key) {
        Some(ConfigAction::Write(template)) => {
            &&& effect == (EffectView::WriteConfig { template })
            &&& template < TEMPLATE_COUNT
            &&& after.state == before.state
        },
        Some(ConfigAction::Back) => effect is Idle && after.state == AppState::Confirmation,
        None => effect is Idle && after.state == before.state,
    }
}

/// `after` is `before` after a key on the list of updates, and `effect` is what the key calls for.
pub open spec fn update_list_stepped(
    before: App,
    key: KeyPress,
    after: App,
    effect: EffectView,
) -> bool {
    let len = before.update_infos@.len();
    let index = update_index_after(before.update_selection_index, len, key);
    &&& after.update_selection_index == index
    &&& after.running == (before.running && !key.is_force_quit())
    &&& framed(
        before,
        after,
        Frame {
            running: true,
            state: true,
            logs: true,
            menu_selection: true,
            update_selection_index: true,
            ..nothing()
        },
    )
    &&& match update_action(len, key) {
        Some(UpdateListAction::Pull) => {
            &&& index < len
            &&& after.state == AppState::UpdatePulling
            &&& after.menu_selection == before.menu_selection
            &&& if before.update_infos@[index as int].is_self {
                &&& effect == (EffectView::UpdateInstaller { index })
                &&& after.logs@.len() == 0
            } else {
                let reference = before.update_infos@[index as int].image@ + ":"@
                    + before.update_infos@[index as int].current_tag@;
                &&& effect == (EffectView::PullImage { index, reference })
                &&& after.logs@ == seq!["⬇️  Executing: docker pull "@ + reference]
            }
        },
        Some(UpdateListAction::Refresh) => {
            &&& effect == (EffectView::FetchUpdates { token: opt_text(before.ghcr_token) })
            &&& after.state == before.state
            &&& after.logs@.len() == 0
            &&& after.menu_selection == before.menu_selection
        },
        Some(UpdateListAction::Back) => {
            &&& effect is Idle
            &&& after.state == AppState::Confirmation
            &&& after.logs == before.logs
            &&& after.menu_selection == clamped(options_of(before), before.menu_selection)
        },
        None => {
            &&& effect is Idle
            &&& after.state == before.state
            &&& after.logs == before.logs
            &&& after.menu_selection == before.menu_selection
        },
    }
}

/// `after` is `before` after a key on a screen that heeds the force-quit shortcut only.
pub open spec fn busy_stepped(before: App, key: KeyPress, after: App, effect: EffectView) -> bool {
    &&& effect is Idle
    &&& after.running == (before.running && !key.is_force_quit())
    &&& framed(before, after, Frame { running: true, ..nothing() })
}

/// `after` is `before` after a key, and `effect` is what the key calls for:
/// the screen shown decides how the key is read.
pub open spec fn stepped(before: App, key: KeyPress, after: App, effect: EffectView) -> bool {
    match before.state {
        AppState::RegistrySetup => registry_setup_stepped(before, key, after, effect),
        AppState::Confirmation => confirmation_stepped(before, key, after, effect),
        AppState::EnvSetup => env_setup_stepped(before, key, after, effect),
        AppState::ConfigSelection => config_selection_stepped(before, key, after, effect),
        AppState::UpdateList => update_list_stepped(before, key, after, effect),
        AppState::UpdatePulling => busy_stepped(before, key, after, effect),
        AppState::Installing => busy_stepped(before, key, after, effect),
        AppState::Success => busy_stepped(before, key, after, effect),
        AppState::Error(_) => busy_stepped(before, key, after, effect),
    }
}

/// The status note of an entry after the local image was inspected anew.
pub open spec fn note_after_pull(note: Option<String>, inspection: LocalInspection) -> Option<
    Seq<char>,
> {
    match inspection {
        LocalInspection::Created(_) => if note matches Some(text) && occurs_in(
            text@,
            inspection_note(),
        ) {
            None
        } else {
            opt_text(note)
        },
        LocalInspection::Failed(why) => Some(
            noted(opt_text(note), "Failed to inspect local image: "@ + why@),
        ),
    }
}

/// `after` is the entry `before` after its image was pulled and inspected anew.
pub open spec fn entry_refreshed(before: UpdateInfo, inspection: LocalInspection, after: UpdateInfo) -> bool {
    &&& opt_text(after.status_note) == note_after_pull(before.status_note, inspection)
    &&& after.local_created == (if before.is_self {
        before.local_created
    } else {
        inspected_time(inspection)
    })
    &&& after.has_update == (if before.is_self {
        before.has_update
    } else {
        update_due(before.remote_latest_updated, inspected_time(inspection))
    })
    &&& after.display_name == before.display_name
    &&& after.image == before.image
    &&& after.current_tag == before.current_tag
    &&& after.available_tags == before.available_tags
    &&& after.latest_release_tag == before.latest_release_tag
    &&& after.latest_release_published == before.latest_release_published
    &&& after.remote_latest_updated == before.remote_latest_updated
    &&& after.is_self == before.is_self
    &&& after.download_url == before.download_url
    &&& after.checksum_url == before.checksum_url
}

impl App {
    /// Begins a login with the token on the form: a token that is blank is
    /// turned down on the form; any other is trimmed and sent to be resolved.
    fn begin_login(&mut self) -> (effect: Effect)
        ensures
            framed(
                *old(self),
                *final(self),
                Frame { registry_form: true, registry_status: true, ..nothing() },
            ),
            final(self).registry_form.token == old(self).registry_form.token,
            final(self).registry_form.current_field == old(self).registry_form.current_field,
            final(self).registry_form.editing == old(self).registry_form.editing,
            if is_blank(old(self).registry_form.token@) {
                &&& effect@ is Idle
                &&& final(self).registry_form.error_message@ == token_required()
                &&& opt_text(final(self).registry_status) == Some(token_required())
            } else {
                &&& effect@ == (EffectView::ResolveUsername {
                    token: trimmed(old(self).registry_form.token@),
                })
                &&& final(self).registry_form.error_message@.len() == 0
                &&& opt_text(final(self).registry_status) == Some(resolving_notice())
            },
    {
        if !self.registry_form.validate() {
            self.registry_status = Some(self.registry_form.error_message.clone());
            return Effect::Idle;
        }
        let token = trim(self.registry_form.token.as_str());
        self.registry_status = Some(String::from_str("Resolving GitHub username from token..."));
        Effect::ResolveUsername { token }
    }

    /// One turn on the credential screen.
    pub fn step_registry_setup(&mut self, key: KeyPress) -> (effect: Effect)
        requires
            old(self).wf(),
        ensures
            final(self).wf(),
            registry_setup_stepped(*old(self), key, *final(self), effect@),
    {
        match self.handle_registry_setup_events(key) {
            Some(RegistryAction::Submit) => self.begin_login(),
            Some(RegistryAction::Skip) => {
                self.registry_status = Some(
                    String::from_str("Skipped GHCR login; you can authenticate later from the menu."),
                );
                self.state = AppState::Confirmation;
                self.ensure_menu_selection();
                Effect::Idle
            },
            None => Effect::Idle,
        }
    }

    /// One turn on the menu.
    pub fn step_confirmation(&mut self, key: KeyPress) -> (effect: Effect)
        requires
            old(self).wf(),
        ensures
            final(self).wf(),
            confirmation_stepped(*old(self), key, *final(self), effect@),
    {
        match self.handle_confirmation_events(key) {
            Some(MenuSelection::Proceed) => {
                if self.env_exists && self.config_exists {
                    self.state = AppState::Installing;
                    self.logs.push("🚀 Starting Analytics installation...");
                    self.logs.push("🔨 Step 1/2: Building images...");
                    self.logs.push("📦 Executing: docker compose build");
                    Effect::Run(Command::ComposeBuild)
                } else {
                    Effect::Idle
                }
            },
            Some(MenuSelection::GenerateEnv) => {
                if !self.config_exists || self.form_data.selected_provider.as_str().is_empty() {
                    self.config_selection_index = 0;
                    self.state = AppState::ConfigSelection;
                } else {
                    self.state = AppState::EnvSetup;
                }
                Effect::Idle
            },
            Some(MenuSelection::GenerateConfig) => {
                self.config_selection_index = 0;
                self.state = AppState::ConfigSelection;
                Effect::Idle
            },
            Some(MenuSelection::CheckUpdates) => {
                let token = match &self.ghcr_token {
                    Some(token) => Some(token.clone()),
                    None => None,
                };
                match token {
                    None => {
                        self.registry_status = Some(
                            String::from_str("Authentication required to check for updates."),
                        );
                        self.state = AppState::RegistrySetup;
                        Effect::Idle
                    },
                    Some(token) => {
                        self.logs.clear();
                        Effect::FetchUpdates { token: Some(token) }
                    },
                }
            },
            Some(MenuSelection::UpdateToken) => {
                self.state = AppState::RegistrySetup;
                Effect::Idle
            },
            Some(MenuSelection::Cancel) => {
                self.running = false;
                Effect::Idle
            },
            None => Effect::Idle,
        }
    }

    /// One turn on the key form.
    pub fn step_env_setup(&mut self, key: KeyPress) -> (effect: Effect)
        requires
            old(self).wf(),
        ensures
            final(self).wf(),
            env_setup_stepped(*old(self), key, *final(self), effect@),
    {
        match self.handle_form_events(key) {
            Some(write) => {
                if write {
                    Effect::WriteEnv
                } else {
                    self.state = AppState::Confirmation;
                    Effect::Idle
                }
            },
            None => Effect::Idle,
        }
    }

    /// One turn on the list of templates.
    pub fn step_config_selection(&mut self, key: KeyPress) -> (effect: Effect)
        requires
            old(self).wf(),
        ensures
            final(self).wf(),
            config_selection_stepped(*old(self), key, *final(self), effect@),
    {
        match self.handle_config_selection_events(key) {
            Some(ConfigAction::Write(template)) => Effect::WriteConfig { template },
            Some(ConfigAction::Back) => {
                self.state = AppState::Confirmation;
                Effect::Idle
            },
            None => Effect::Idle,
        }
    }

    /// One turn on the list of updates.
    pub fn step_update_list(&mut self, key: KeyPress) -> (effect: Effect)
        requires
            old(self).wf(),
        ensures
            final(self).wf(),
            update_list_stepped(*old(self), key, *final(self), effect@),
    {
        match self.handle_update_list_events(key) {
            Some(UpdateListAction::Pull) => {
                let index = self.update_selection_index;
                self.state = AppState::UpdatePulling;
                self.logs.clear();
                if self.update_infos[index].is_self {
                    Effect::UpdateInstaller { index }
                } else {
                    let reference = self.update_infos[index].pull_reference();
                    let line = join2("⬇️  Executing: docker pull ", reference.as_str());
                    self.logs.push(line.as_str());
                    Effect::PullImage { index, reference }
                }
            },
            Some(UpdateListAction::Refresh) => {
                self.logs.clear();
                let token = match &self.ghcr_token {
                    Some(token) => Some(token.clone()),
                    None => None,
                };
                Effect::FetchUpdates { token }
            },
            Some(UpdateListAction::Back) => {
                self.state = AppState::Confirmation;
                self.ensure_menu_selection();
                Effect::Idle
            },
            None => Effect::Idle,
        }
    }

    /// One turn of the wizard: takes in a key as the screen shown reads it,
    /// moves to the screen that follows, and returns the outside work that
    /// the key calls for.
    pub fn step(&mut self, key: KeyPress) -> (effect: Effect)
        requires
            old(self).wf(),
        ensures
            final(self).wf(),
            stepped(*old(self), key, *final(self), effect@),
    {
        let screen: u8 = match &self.state {
            AppState::RegistrySetup => 0,
            AppState::Confirmation => 1,
            AppState::EnvSetup => 2,
            AppState::ConfigSelection => 3,
            AppState::UpdateList => 4,
            _ => 5,
        };
        if screen == 0 {
            self.step_registry_setup(key)
        } else if screen == 1 {
            self.step_confirmation(key)
        } else if screen == 2 {
            self.step_env_setup(key)
        } else if screen == 3 {
            self.step_config_selection(key)
        } else if screen == 4 {
            self.step_update_list(key)
        } else {
            self.handle_busy_events(key);
            Effect::Idle
        }
    }

    /// Takes in the answer of the identity service. With a user name the
    /// login goes on; without one the failure is shown on the credential
    /// screen, which stays.
    pub fn username_resolved(&mut self, token: String, result: Result<String, String>) -> (effect:
        Effect)
        requires
            old(self).wf(),
        ensures
            final(self).wf(),
            old(self).state is Error ==> *final(self) == *old(self) && effect@ is Idle,
            !(old(self).state is Error) ==> ({
                &&& framed(*old(self), *final(self), Frame { logs: true, registry_status: true, ..nothing() })
                &&& match result {
                    Ok(username) => {
                        &&& effect@ == (EffectView::RegistryLogin { username: username@, token: token@ })
                        &&& opt_text(final(self).registry_status) == Some(logging_in_notice())
                        &&& final(self).logs@ == appended(
                            old(self).logs@,
                            "🔐 Executing: docker login ghcr.io as "@ + username@,
                        )
                    },
                    Err(why) => {
                        &&& effect@ is Idle
                        &&& opt_text(final(self).registry_status) == Some(
                            "Failed to resolve username: "@ + why@,
                        )
                        &&& final(self).logs == old(self).logs
                    },
                }
            }),
    {
        if self.showing_error() {
            return Effect::Idle;
        }
        match result {
            Ok(username) => {
                self.registry_status = Some(String::from_str("Logging in to ghcr.io..."));
                let line = join2("🔐 Executing: docker login ghcr.io as ", username.as_str());
                self.logs.push(line.as_str());
                Effect::RegistryLogin { username, token }
            },
            Err(why) => {
                self.registry_status = Some(join2("Failed to resolve username: ", why.as_str()));
                Effect::Idle
            },
        }
    }

    /// Takes in the outcome of the login command. An accepted credential is
    /// kept, asked to be saved, and opens the menu, which from then on offers
    /// to change the token. Any other outcome is shown on the credential
    /// screen, which stays.
    pub fn login_finished(&mut self, token: String, outcome: LoginOutcome) -> (effect: Effect)
        requires
            old(self).wf(),
        ensures
            final(self).wf(),
            old(self).state is Error ==> *final(self) == *old(self) && effect@ is Idle,
            !(old(self).state is Error) ==> ({
                &&& framed(
                    *old(self),
                    *final(self),
                    Frame {
                        state: true,
                        menu_selection: true,
                        registry_form: true,
                        registry_status: true,
                        ghcr_token: true,
                        ..nothing()
                    },
                )
                &&& final(self).registry_form.token == old(self).registry_form.token
                &&& final(self).registry_form.current_field == old(self).registry_form.current_field
                &&& final(self).registry_form.editing == old(self).registry_form.editing
                &&& match outcome {
                    LoginOutcome::Accepted => {
                        &&& effect@ == (EffectView::PersistToken { token: token@ })
                        &&& final(self).state == AppState::Confirmation
                        &&& opt_text(final(self).ghcr_token) == Some(token@)
                        &&& opt_text(final(self).registry_status) == Some(authenticated_notice())
                        &&& final(self).registry_form.error_message@.len() == 0
                        &&& options_of(*final(self)).contains(MenuSelection::UpdateToken)
                        &&& options_of(*final(self)).contains(final(self).menu_selection)
                    },
                    _ => {
                        &&& effect@ is Idle
                        &&& final(self).state == old(self).state
                        &&& final(self).ghcr_token == old(self).ghcr_token
                        &&& final(self).menu_selection == old(self).menu_selection
                        &&& final(self).registry_form.error_message == old(self).registry_form.error_message
                        &&& opt_text(final(self).registry_status) == Some(
                            match outcome {
                                LoginOutcome::Rejected { diagnostics } => rejection_message(diagnostics@),
                                LoginOutcome::NoInput => "Failed to communicate with docker login"@,
                                LoginOutcome::CommandFailed(why) => "Failed to run docker login: "@
                                    + why@,
                                LoginOutcome::Accepted => authenticated_notice(),
                            },
                        )
                    },
                }
            }),
    {
        if self.showing_error() {
            return Effect::Idle;
        }
        match outcome {
            LoginOutcome::Accepted => {
                self.registry_status = Some(
                    String::from_str("Authenticated with ghcr.io successfully"),
                );
                self.ghcr_token = Some(token.clone());
                self.registry_form.error_message = String::new();
                self.state = AppState::Confirmation;
                self.ensure_menu_selection();
                proof {
                    crate::menu::lemma_listed_options(true, self.config_exists, self.env_exists);
                    assert(is_available(
                        MenuSelection::UpdateToken,
                        true,
                        self.config_exists,
                        self.env_exists,
                    ));
                }
                Effect::PersistToken { token }
            },
            LoginOutcome::Rejected { diagnostics } => {
                self.registry_status = Some(login_rejection(diagnostics.as_str()));
                Effect::Idle
            },
            LoginOutcome::NoInput => {
                self.registry_status = Some(
                    String::from_str("Failed to communicate with docker login"),
                );
                Effect::Idle
            },
            LoginOutcome::CommandFailed(why) => {
                self.registry_status = Some(join2("Failed to run docker login: ", why.as_str()));
                Effect::Idle
            },
        }
    }

    /// Takes in whether the token could be saved. A failure leaves a
    /// warning and nothing more: the login stands.
    pub fn token_persisted(&mut self, result: Result<(), String>)
        ensures
            old(self).state is Error ==> *final(self) == *old(self),
            !(old(self).state is Error) ==> ({
                &&& framed(*old(self), *final(self), Frame { registry_status: true, ..nothing() })
                &&& match result {
                    Ok(_) => final(self).registry_status == old(self).registry_status,
                    Err(why) => opt_text(final(self).registry_status) == Some(
                        "Authenticated, but the token could not be saved: "@ + why@,
                    ),
                }
            }),
    {
        if self.showing_error() {
            return ;
        }
        match result {
            Ok(_) => {},
            Err(why) => {
                self.registry_status = Some(
                    join2("Authenticated, but the token could not be saved: ", why.as_str()),
                );
            },
        }
    }

    /// Takes in the end of a command of the installation. A build that
    /// succeeds is followed by the start of the services; a start that
    /// succeeds ends the installation. A failure of either leads to the error
    /// screen; the transcript stays as it is.
    pub fn command_finished(&mut self, command: Command, outcome: Result<(), String>) -> (effect:
        Effect)
        requires
            old(self).wf(),
        ensures
            final(self).wf(),
            old(self).state is Error ==> *final(self) == *old(self) && effect@ is Idle,
            !(old(self).state is Error) ==> ({
                &&& framed(
                    *old(self),
                    *final(self),
                    Frame { state: true, logs: true, install: true, ..nothing() },
                )
                &&& final(self).install.current_service == old(self).install.current_service
                &&& final(self).install.total_services == old(self).install.total_services
                &&& final(self).install.completed_services == old(self).install.completed_services
                &&& match outcome {
                    Err(why) => {
                        &&& effect@ is Idle
                        &&& shows_error(*final(self), "Installation failed: "@ + why@)
                        &&& final(self).logs == old(self).logs
                        &&& final(self).install == old(self).install
                    },
                    Ok(_) => match command {
                        Command::ComposeBuild => {
                            &&& effect@ == EffectView::Run(Command::ComposeUp)
                            &&& final(self).state == old(self).state
                            &&& final(self).logs@ == deploy_opening(old(self).logs@)
                            &&& final(self).install.phase == Phase::Deploy
                            &&& final(self).install.progress == DEPLOY_BASE
                        },
                        Command::ComposeUp => {
                            &&& effect@ is Idle
                            &&& final(self).state == AppState::Success
                            &&& final(self).logs@ == appended(
                                old(self).logs@,
                                "✅ All services started successfully!"@,
                            )
                            &&& final(self).install.phase == Phase::Done
                            &&& final(self).install.progress == COMPLETE
                        },
                    },
                }
            }),
    {
        if self.showing_error() {
            return Effect::Idle;
        }
        match outcome {
            Err(why) => {
                self.state = AppState::Error(join2("Installation failed: ", why.as_str()));
                Effect::Idle
            },
            Ok(_) => match command {
                Command::ComposeBuild => {
                    self.logs.push("✅ Build completed successfully!");
                    self.install.begin_deploy();
                    self.logs.push("🚀 Step 2/2: Starting services...");
                    self.logs.push("📦 Executing: docker compose up -d");
                    Effect::Run(Command::ComposeUp)
                },
                Command::ComposeUp => {
                    self.logs.push("✅ All services started successfully!");
                    self.install.finish();
                    self.state = AppState::Success;
                    Effect::Idle
                },
            },
        }
    }

    /// Takes in the resolved updates. The list replaces the old one whole and
    /// is shown; a failure leads to the error screen.
    pub fn updates_loaded(&mut self, result: Result<Vec<UpdateInfo>, String>)
        requires
            old(self).wf(),
            result matches Ok(infos) ==> forall|i: int|
                0 <= i < infos@.len() ==> (#[trigger] infos@[i]).wf(),
        ensures
            final(self).wf(),
            old(self).state is Error ==> *final(self) == *old(self),
            !(old(self).state is Error) ==> ({
                &&& framed(
                    *old(self),
                    *final(self),
                    Frame {
                        state: true,
                        update_infos: true,
                        update_selection_index: true,
                        update_message: true,
                        ..nothing()
                    },
                )
                &&& match result {
                    Ok(infos) => {
                        &&& final(self).state == AppState::UpdateList
                        &&& final(self).update_infos == infos
                        &&& final(self).update_selection_index == clamped_index(
                            old(self).update_selection_index,
                            infos@.len(),
                        )
                        &&& opt_text(final(self).update_message) == Some(
                            if infos@.len() == 0 {
                                no_services_notice()
                            } else {
                                update_hint()
                            },
                        )
                    },
                    Err(why) => {
                        &&& shows_error(
                            *final(self),
                            (if old(self).state == AppState::UpdateList {
                                "Failed to refresh updates: "@
                            } else {
                                "Failed to check updates: "@
                            }) + why@,
                        )
                        &&& final(self).update_infos == old(self).update_infos
                        &&& final(self).update_selection_index == old(self).update_selection_index
                        &&& final(self).update_message == old(self).update_message
                    },
                }
            }),
    {
        if self.showing_error() {
            return ;
        }
        match result {
            Ok(infos) => {
                self.update_infos = infos;
                self.ensure_update_selection();
                if self.update_infos.len() == 0 {
                    self.update_message = Some(
                        String::from_str("No GHCR-backed services were found in docker-compose.yaml"),
                    );
                } else {
                    self.update_message = Some(
                        String::from_str(
                            "Use ↑/↓ to pick a service, Enter or P to pull :latest, R to refresh, Esc to go back",
                        ),
                    );
                }
                self.state = AppState::UpdateList;
            },
            Err(why) => {
                let refreshing = match &self.state {
                    AppState::UpdateList => true,
                    _ => false,
                };
                let message = if refreshing {
                    join2("Failed to refresh updates: ", why.as_str())
                } else {
                    join2("Failed to check updates: ", why.as_str())
                };
                self.state = AppState::Error(message);
            },
        }
    }

    /// Takes in a line that the pull of an image printed: it goes to the
    /// transcript, marked by the stream it came from.
    pub fn pull_output(&mut self, stream: Stream, line: &str)
        ensures
            old(self).state is Error ==> *final(self) == *old(self),
            !(old(self).state is Error) ==> ({
                &&& final(self).logs@ == appended(
                    old(self).logs@,
                    (match stream {
                        Stream::Stdout => "ℹ️  "@,
                        Stream::Stderr => "⚠️  "@,
                    }) + line@,
                )
                &&& framed(*old(self), *final(self), Frame { logs: true, ..nothing() })
            }),
    {
        if self.showing_error() {
            return ;
        }
        let shown = match stream {
            Stream::Stdout => join2("ℹ️  ", line),
            Stream::Stderr => join2("⚠️  ", line),
        };
        self.logs.push(shown.as_str());
    }

    /// Takes in the end of the pull of entry `index`. After a pull that
    /// succeeded the entry takes in the new inspection of the local image,
    /// and the list is shown again; a pull that failed leads to the error
    /// screen.
    pub fn pull_finished(&mut self, index: usize, outcome: Result<LocalInspection, String>)
        requires
            old(self).wf(),
        ensures
            final(self).wf(),
            old(self).state is Error ==> *final(self) == *old(self),
            !(old(self).state is Error) ==> ({
                &&& framed(
                    *old(self),
                    *final(self),
                    Frame {
                        state: true,
                        logs: true,
                        update_infos: true,
                        update_message: true,
                        ..nothing()
                    },
                )
                &&& match outcome {
                    Err(why) => {
                        &&& shows_error(*final(self), "Failed to pull image: "@ + why@)
                        &&& final(self).logs == old(self).logs
                        &&& final(self).update_infos == old(self).update_infos
                        &&& final(self).update_message == old(self).update_message
                    },
                    Ok(inspection) => {
                        &&& final(self).state == AppState::UpdateList
                        &&& final(self).logs@ == appended(old(self).logs@, "✅ Image pulled successfully"@)
                        &&& opt_text(final(self).update_message) == Some(refreshed_notice())
                        &&& final(self).update_infos@.len() == old(self).update_infos@.len()
                        &&& forall|i: int|
                            0 <= i < old(self).update_infos@.len() && i != index ==> final(self).update_infos@[i] == old(self).update_infos@[i]
                        &&& index < old(self).update_infos@.len() ==> entry_refreshed(
                            old(self).update_infos@[index as int],
                            inspection,
                            final(self).update_infos@[index as int],
                        )
                    },
                }
            }),
    {
        if self.showing_error() {
            return ;
        }
        match outcome {
            Err(why) => {
                self.state = AppState::Error(join2("Failed to pull image: ", why.as_str()));
            },
            Ok(inspection) => {
                self.logs.push("✅ Image pulled successfully");
                if index < self.update_infos.len() {
                    let mut info = self.update_infos.remove(index);
                    match inspection {
                        LocalInspection::Created(created) => {
                            info.clear_local_error();
                            info.apply_local_created(created);
                        },
                        LocalInspection::Failed(why) => {
                            let note = join2("Failed to inspect local image: ", why.as_str());
                            info.append_status(note.as_str());
                            info.apply_local_created(None);
                        },
                    }
                    self.update_infos.insert(index, info);
                }
                self.state = AppState::UpdateList;
                self.update_message = Some(
                    String::from_str("Image refreshed. Press R to fetch remote metadata again."),
                );
            },
        }
    }

    /// Takes in the end of the installer's own update: the outcome is shown
    /// above the list of updates, or on the error screen if the update failed.
    pub fn installer_updated(&mut self, outcome: Result<String, String>)
        requires
            old(self).wf(),
        ensures
            final(self).wf(),
            old(self).state is Error ==> *final(self) == *old(self),
            !(old(self).state is Error) ==> ({
                &&& framed(*old(self), *final(self), Frame { state: true, update_message: true, ..nothing() })
                &&& match outcome {
                    Ok(message) => final(self).state == AppState::UpdateList && opt_text(
                        final(self).update_message,
                    ) == Some(message@),
                    Err(why) => shows_error(*final(self), "Failed to update installer: "@ + why@)
                        && final(self).update_message == old(self).update_message,
                }
            }),
    {
        if self.showing_error() {
            return ;
        }
        match outcome {
            Ok(message) => {
                self.state = AppState::UpdateList;
                self.update_message = Some(message);
            },
            Err(why) => {
                self.state = AppState::Error(join2("Failed to update installer: ", why.as_str()));
            },
        }
    }

    /// Takes in whether the configuration file was written from template
    /// `template`. Once it is written, the key form is made ready for the
    /// template's provider, and the wizard goes on to the key form or, where
    /// the environment file exists already, back to the menu with "proceed"
    /// selected. A failure leads to the error screen.
    pub fn config_written(&mut self, template: usize, result: Result<(), String>)
        requires
            old(self).wf(),
            template < TEMPLATE_COUNT,
        ensures
            final(self).wf(),
            old(self).state is Error ==> *final(self) == *old(self),
            !(old(self).state is Error) ==> ({
                &&& framed(
                    *old(self),
                    *final(self),
                    Frame {
                        state: true,
                        files: true,
                        form_data: true,
                        menu_selection: true,
                        ..nothing()
                    },
                )
                &&& final(self).env_exists == old(self).env_exists
                &&& match result {
                    Ok(_) => {
                        &&& final(self).config_exists
                        &&& final(self).form_data.selected_provider@ == template_key(template as int)
                        &&& final(self).form_data.api_key@.len() == 0
                        &&& final(self).form_data.openai_api_key@.len() == 0
                        &&& final(self).form_data.current_field == 0
                        &&& !final(self).form_data.editing
                        &&& final(self).form_data.error_message@.len() == 0
                        &&& final(self).state == (if old(self).env_exists {
                            AppState::Confirmation
                        } else {
                            AppState::EnvSetup
                        })
                        &&& final(self).menu_selection == (if old(self).env_exists {
                            MenuSelection::Proceed
                        } else {
                            clamped(
                                crate::menu::listed_options(old(self).ghcr_token is Some, true, false),
                                old(self).menu_selection,
                            )
                        })
                    },
                    Err(why) => {
                        &&& shows_error(*final(self), "Failed to generate config.yaml: "@ + why@)
                        &&& final(self).config_exists == old(self).config_exists
                        &&& final(self).form_data == old(self).form_data
                        &&& final(self).menu_selection == old(self).menu_selection
                    },
                }
            }),
    {
        if self.showing_error() {
            return ;
        }
        match result {
            Ok(_) => {
                self.config_exists = true;
                self.form_data.selected_provider = String::from_str(config_template(template).key);
                self.form_data.api_key = String::new();
                self.form_data.openai_api_key = String::new();
                self.form_data.current_field = 0;
                self.form_data.editing = false;
                self.form_data.error_message = String::new();
                if !self.env_exists {
                    self.state = AppState::EnvSetup;
                    self.ensure_menu_selection();
                } else {
                    self.state = AppState::Confirmation;
                    self.menu_selection = MenuSelection::Proceed;
                }
            },
            Err(why) => {
                self.state = AppState::Error(join2("Failed to generate config.yaml: ", why.as_str()));
            },
        }
    }

    /// Takes in whether the environment file was written. Once it is
    /// written, the wizard goes back to the menu, with the entry selected
    /// that is due next: the configuration if it is still missing, else
    /// "proceed". A failure leads to the error screen.
    pub fn env_written(&mut self, result: Result<(), String>)
        requires
            old(self).wf(),
        ensures
            final(self).wf(),
            old(self).state is Error ==> *final(self) == *old(self),
            !(old(self).state is Error) ==> ({
                &&& framed(
                    *old(self),
                    *final(self),
                    Frame { state: true, files: true, menu_selection: true, ..nothing() },
                )
                &&& final(self).config_exists == old(self).config_exists
                &&& match result {
                    Ok(_) => {
                        &&& final(self).env_exists
                        &&& final(self).state == AppState::Confirmation
                        &&& final(self).menu_selection == (if old(self).config_exists {
                            MenuSelection::Proceed
                        } else {
                            MenuSelection::GenerateConfig
                        })
                    },
                    Err(why) => {
                        &&& shows_error(*final(self), "Failed to generate .env: "@ + why@)
                        &&& final(self).env_exists == old(self).env_exists
                        &&& final(self).menu_selection == old(self).menu_selection
                    },
                }
            }),
    {
        if self.showing_error() {
            return ;
        }
        match result {
            Ok(_) => {
                self.env_exists = true;
                self.state = AppState::Confirmation;
                if !self.config_exists {
                    self.menu_selection = MenuSelection::GenerateConfig;
                } else {
                    self.menu_selection = MenuSelection::Proceed;
                }
            },
            Err(why) => {
                self.state = AppState::Error(join2("Failed to generate .env: ", why.as_str()));
            },
        }
    }
}

/// Without a credential, asking for updates never reaches the registry: the
/// wizard goes to the credential screen instead.
pub proof fn lemma_updates_need_credential(before: App, key: KeyPress, after: App, effect: EffectView)
    requires
        before.state == AppState::Confirmation,
        before.ghcr_token is None,
        menu_action(before, key) == Some(MenuSelection::CheckUpdates),
        stepped(before, key, after, effect),
    ensures
        after.state == AppState::RegistrySetup,
        effect is Idle,
{
}

/// No key asks for outside work on a screen that only waits: while an
/// operation runs, and after the wizard has come to its end, a key can do
/// no more than end the wizard.
pub proof fn lemma_waiting_screens_ask_nothing(before: App, key: KeyPress, after: App, effect: EffectView)
    requires
        before.state == AppState::Installing || before.state == AppState::UpdatePulling
            || before.state == AppState::Success || before.state is Error,
        stepped(before, key, after, effect),
    ensures
        effect is Idle,
        after.state == before.state,
{
}

} // verus!
