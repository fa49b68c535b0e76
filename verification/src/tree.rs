//! The tree that inspection sees of each window, and what its nodes do.
use vstd::prelude::*;

use crate::catalog::{preferred_method, AuthHint, ProviderListing};
use crate::detail::BpmFilter;
use crate::filters::BpmFilterMode;
use crate::inspection::{button, button_node, entry, input_node, label_node, node, node_of,
    node_views, opaque_id, push_node, shown, stable_id, InputValue, NodeActions, NodeView,
    SemanticNode, Surface, ROOT_ID};
use crate::labels::TypedLabels;
use crate::manager::ProjectManager;
use crate::navigation::{AuthPhase, OnboardingStep, Overlay, OverlayHost, Route};
use crate::notice::{joined2, joined3};
use crate::project::Project;
use crate::screens::{count_attention, count_connected, passing, ListQuery};
use crate::status::ProjectAction;
use crate::text::{after_prefix, count_text, decimal, join, joined, lowercase, same, starts,
    starts_with, views};

verus! {

// ---------------------------------------------------------------------------
// The nodes
// ---------------------------------------------------------------------------

/// How many rows of the library a tree holds: narrowing the search shows later
/// ones.
pub const PAGE: usize = 100;

/// What the entry fields hold, and which has the focus.
#[derive(Debug)]
pub struct Entries {
    pub query: ListQuery,
    pub search_focused: bool,
    pub bpm_range_min: InputValue,
    pub bpm_range_max: InputValue,
    pub labels: TypedLabels,
    pub genre_focused: bool,
    pub tags_focused: bool,
    pub display_name: InputValue,
    pub display_name_setting: InputValue,
    pub path_alias: InputValue,
    pub credential: InputValue,
}

/// Whether any project has something to back up.
pub open spec fn any_waits(projects: Seq<Project>) -> bool {
    exists|i: int| 0 <= i < projects.len() && (#[trigger] projects[i]).status.next_action() is Push
}

fn some_wait(projects: &Vec<Project>) -> (r: bool)
    ensures
        r == any_waits(projects@),
{
    let mut i: usize = 0;
    while i < projects.len()
        invariant
            i <= projects@.len(),
            forall|j: int|
                0 <= j < i ==> !((#[trigger] projects@[j]).status.next_action() is Push),
        decreases projects@.len() - i,
    {
        if projects[i].status.action() == ProjectAction::Push {
            return true;
        }
        i = i + 1;
    }
    false
}

/// A truth value in words.
pub open spec fn truth(value: bool) -> Seq<char> {
    if value {
        "true"@
    } else {
        "false"@
    }
}

fn truth_text(value: bool) -> (r: String)
    ensures
        r@ == truth(value),
{
    if value {
        "true".to_owned()
    } else {
        "false".to_owned()
    }
}

/// The nodes of the first `n` providers, each a button until it is connected.
pub open spec fn provider_nodes(prefix: Seq<char>, providers: Seq<ProviderListing>, n: int) -> Seq<
    NodeView,
>
    decreases n,
{
    if n <= 0 {
        Seq::empty()
    } else {
        provider_nodes(prefix, providers, n - 1).push(
            button_node(
                prefix + providers[n - 1].entry.id@,
                providers[n - 1].entry.name@,
                Some(providers[n - 1].availability.label_text()),
                !(providers[n - 1].availability is Connected),
            ),
        )
    }
}

fn add_providers(nodes: &mut Vec<SemanticNode>, prefix: &str, providers: &Vec<ProviderListing>)
    ensures
        node_views(final(nodes)@) == node_views(old(nodes)@) + provider_nodes(
            prefix@,
            providers@,
            providers@.len() as int,
        ),
{
    let ghost before = node_views(nodes@);
    let mut i: usize = 0;
    assert(before =~= before + provider_nodes(prefix@, providers@, 0));
    while i < providers.len()
        invariant
            i <= providers@.len(),
            node_views(nodes@) == before + provider_nodes(prefix@, providers@, i as int),
        decreases providers@.len() - i,
    {
        let provider = &providers[i];
        push_node(
            nodes,
            button(
                joined2(prefix, provider.entry.id.as_str()).as_str(),
                provider.entry.name.as_str(),
                Some(provider.availability.label().to_owned()),
                !provider.is_connected(),
            ),
        );
        i = i + 1;
        assert(node_views(nodes@) =~= before + provider_nodes(prefix@, providers@, i as int));
    }
}

impl ProjectManager {
    /// The library, without its rows.
    pub open spec fn library_head(self, entries: Entries) -> Seq<NodeView> {
        seq![
            label_node(
                "library"@,
                "region"@,
                "Project library"@,
                Some(
                    decimal(self.projects@.len()) + " projects; "@ + decimal(
                        count_attention(self.projects@, self.projects@.len() as int),
                    ) + " need attention"@,
                ),
            ),
            node_of(
                "search-projects"@,
                "textbox"@,
                "Search projects"@,
                Some(entries.query.search@),
                entries.search_focused,
                NodeActions::Type.texts(),
            ),
        ] + (if self.bpm_popover_open && self.bpm_filter_mode is Range {
            seq![
                input_node(
                    "bpm-range-min-input"@,
                    "spinbutton"@,
                    "Minimum BPM"@,
                    entries.bpm_range_min,
                ),
                input_node(
                    "bpm-range-max-input"@,
                    "spinbutton"@,
                    "Maximum BPM"@,
                    entries.bpm_range_max,
                ),
            ]
        } else {
            Seq::empty()
        }) + seq![
            button_node(
                "backup-all"@,
                "Back up all changes"@,
                None,
                any_waits(self.projects@),
            ),
            button_node("shortcut-refresh"@, "Refresh library"@, None, true),
            button_node(
                "open-settings"@,
                "Open settings"@,
                Some(
                    if self.settings_open {
                        "open"@
                    } else {
                        "closed"@
                    },
                ),
                true,
            ),
        ]
    }

    fn add_library_head(&self, nodes: &mut Vec<SemanticNode>, entries: &Entries)
        ensures
            node_views(final(nodes)@) == node_views(old(nodes)@) + self.library_head(*entries),
    {
        let ghost before = node_views(nodes@);
        let mut summary = joined3(
            count_text(self.projects.len()).as_str(),
            " projects; ",
            count_text(self.attention_count()).as_str(),
        );
        summary.append(" need attention");
        push_node(nodes, shown("library", "region", "Project library", Some(summary)));
        push_node(
            nodes,
            node(
                "search-projects",
                "textbox",
                "Search projects",
                Some(entries.query.search.clone()),
                entries.search_focused,
                NodeActions::Type.names(),
            ),
        );
        if self.bpm_popover_open && self.bpm_filter_mode == BpmFilterMode::Range {
            push_node(
                nodes,
                entry(
                    "bpm-range-min-input",
                    "spinbutton",
                    "Minimum BPM",
                    &entries.bpm_range_min,
                ),
            );
            push_node(
                nodes,
                entry(
                    "bpm-range-max-input",
                    "spinbutton",
                    "Maximum BPM",
                    &entries.bpm_range_max,
                ),
            );
        }
        push_node(
            nodes,
            button("backup-all", "Back up all changes", None, some_wait(&self.projects)),
        );
        push_node(nodes, button("shortcut-refresh", "Refresh library", None, true));
        let settings = if self.settings_open {
            "open"
        } else {
            "closed"
        };
        push_node(
            nodes,
            button("open-settings", "Open settings", Some(settings.to_owned()), true),
        );
        assert(node_views(nodes@) =~= before + self.library_head(*entries));
    }

    /// A row, and what can be done with the selected one.
    pub open spec fn row_nodes(self, at: int, entries: Entries) -> Seq<NodeView> {
        let project = self.projects@[at];
        let draft = self.draft_view(entries.labels);
        seq![
            button_node(
                opaque_id("project"@, vstd::utf8::encode_utf8(project.id@)),
                project.name@,
                Some(
                    (if at == self.selected_project {
                        "selected"@
                    } else {
                        "not_selected"@
                    }) + "; "@ + project.list_status_text(),
                ),
                true,
            ),
        ] + (if at == self.selected_project {
            seq![
                button_node(
                    opaque_id(
                        "project-primary-action"@,
                        vstd::utf8::encode_utf8(project.id@),
                    ),
                    project.name@ + ": "@ + project.status.next_action().label_text(),
                    Some(project.list_status_text()),
                    !(project.status.next_action() is Wait),
                ),
                node_of(
                    "project-genre-input"@,
                    "textbox"@,
                    "Project genre"@,
                    Some(
                        match draft.0 {
                            Some(genre) => genre,
                            None => ""@,
                        },
                    ),
                    entries.genre_focused,
                    NodeActions::Type.texts(),
                ),
                node_of(
                    "project-tags-input"@,
                    "textbox"@,
                    "Project tags"@,
                    Some(joined(draft.1, ", "@)),
                    entries.tags_focused,
                    NodeActions::Type.texts(),
                ),
                button_node(
                    "save-project-metadata"@,
                    "Save project metadata"@,
                    Some(
                        if self.is_saving(project) {
                            "saving"@
                        } else if self.is_edited(project, entries.labels) {
                            "changed"@
                        } else {
                            "saved"@
                        },
                    ),
                    self.is_edited(project, entries.labels) && !self.is_saving(project),
                ),
            ]
        } else {
            Seq::empty()
        })
    }

    fn add_selected(&self, nodes: &mut Vec<SemanticNode>, project: &Project, entries: &Entries)
        requires
            self.selected_project < self.projects@.len(),
            *project == self.projects@[self.selected_project as int],
        ensures
            node_views(final(nodes)@) == node_views(old(nodes)@) + self.row_nodes(
                self.selected_project as int,
                *entries,
            ).skip(1),
    {
        let ghost before = node_views(nodes@);
        let action = project.status.action();
        let draft = self.metadata_from_inputs(&entries.labels);
        push_node(
            nodes,
            button(
                stable_id("project-primary-action", project.id.as_str()).as_str(),
                joined3(project.name.as_str(), ": ", action.label()).as_str(),
                Some(project.list_status()),
                action != ProjectAction::Wait,
            ),
        );
        let genre = match &draft.genre {
            Some(genre) => genre.clone(),
            None => "".to_owned(),
        };
        push_node(
            nodes,
            node(
                "project-genre-input",
                "textbox",
                "Project genre",
                Some(genre),
                entries.genre_focused,
                NodeActions::Type.names(),
            ),
        );
        push_node(
            nodes,
            node(
                "project-tags-input",
                "textbox",
                "Project tags",
                Some(join(&draft.tags, ", ")),
                entries.tags_focused,
                NodeActions::Type.names(),
            ),
        );
        let saving = self.saving(project);
        let edited = self.edited(project, &entries.labels);
        let state = if saving {
            "saving"
        } else if edited {
            "changed"
        } else {
            "saved"
        };
        push_node(
            nodes,
            button(
                "save-project-metadata",
                "Save project metadata",
                Some(state.to_owned()),
                edited && !saving,
            ),
        );
        assert(node_views(nodes@) =~= before + self.row_nodes(
            self.selected_project as int,
            *entries,
        ).skip(1));
    }

    fn add_row(&self, nodes: &mut Vec<SemanticNode>, at: usize, entries: &Entries)
        requires
            at < self.projects@.len(),
        ensures
            node_views(final(nodes)@) == node_views(old(nodes)@) + self.row_nodes(
                at as int,
                *entries,
            ),
    {
        let ghost before = node_views(nodes@);
        let project = &self.projects[at];
        let selected = at == self.selected_project;
        let value = joined3(
            if selected {
                "selected"
            } else {
                "not_selected"
            },
            "; ",
            project.list_status().as_str(),
        );
        push_node(
            nodes,
            button(
                stable_id("project", project.id.as_str()).as_str(),
                project.name.as_str(),
                Some(value),
                true,
            ),
        );
        let ghost row = self.row_nodes(at as int, *entries);
        assert(node_views(nodes@) =~= before.push(row[0]));
        if selected {
            self.add_selected(nodes, project, entries);
            assert(node_views(nodes@) =~= before + row);
        } else {
            assert(node_views(nodes@) =~= before + row);
        }
    }

    /// The rows at the first `n` of some places.
    pub open spec fn rows_nodes(self, places: Seq<usize>, entries: Entries, n: int) -> Seq<NodeView>
        decreases n,
    {
        if n <= 0 {
            Seq::empty()
        } else {
            self.rows_nodes(places, entries, n - 1) + self.row_nodes(places[n - 1] as int, entries)
        }
    }

    /// The library with as many rows as a tree holds.
    pub open spec fn library_nodes(self, entries: Entries) -> Seq<NodeView> {
        let places = self.visible(entries.query);
        self.library_head(entries) + self.rows_nodes(
            places,
            entries,
            if places.len() < PAGE {
                places.len() as int
            } else {
                PAGE as int
            },
        )
    }

    fn add_library(&self, nodes: &mut Vec<SemanticNode>, entries: &Entries)
        ensures
            node_views(final(nodes)@) == node_views(old(nodes)@) + self.library_nodes(*entries),
    {
        let ghost before = node_views(nodes@);
        self.add_library_head(nodes, entries);
        let ghost head = node_views(nodes@);
        let places = self.visible_projects(&entries.query);
        let shown: usize = if places.len() < PAGE {
            places.len()
        } else {
            PAGE
        };
        let mut i: usize = 0;
        assert(head =~= head + self.rows_nodes(places@, *entries, 0));
        while i < shown
            invariant
                i <= shown <= places@.len(),
                forall|j: int| 0 <= j < places@.len() ==> (#[trigger] places@[j])
                    < self.projects@.len(),
                node_views(nodes@) == head + self.rows_nodes(places@, *entries, i as int),
            decreases shown - i,
        {
            self.add_row(nodes, places[i], entries);
            i = i + 1;
            assert(node_views(nodes@) =~= head + self.rows_nodes(places@, *entries, i as int));
        }
        assert(node_views(nodes@) =~= before + self.library_nodes(*entries));
    }

    /// A step of the introduction.
    pub open spec fn onboarding_nodes(self, entries: Entries) -> Seq<NodeView> {
        seq![
            label_node(
                "onboarding"@,
                "region"@,
                "Auru PM setup"@,
                Some(decimal(self.onboarding_step.place()) + "/"@ + decimal(3)),
            ),
            match self.onboarding_step {
                OnboardingStep::Profile => input_node(
                    "display-name-input"@,
                    "textbox"@,
                    "Display name"@,
                    entries.display_name,
                ),
                OnboardingStep::Provider => button_node(
                    "onboarding-choose-provider"@,
                    "Choose a backup destination"@,
                    Some(
                        decimal(count_connected(self.providers@, self.providers@.len() as int))
                            + " connected"@,
                    ),
                    true,
                ),
                OnboardingStep::Music => button_node(
                    "onboarding-watch-folder"@,
                    "Choose a project folder"@,
                    Some(decimal(self.state.watched_folders@.len()) + " watched"@),
                    !self.scanning,
                ),
            },
            button_node(
                "continue-onboarding"@,
                "Continue setup"@,
                None,
                self.may_continue(entries.display_name.text@),
            ),
            button_node("previous-onboarding"@, "Previous setup step"@, None, true),
        ]
    }

    fn add_onboarding(&self, nodes: &mut Vec<SemanticNode>, entries: &Entries)
        ensures
            node_views(final(nodes)@) == node_views(old(nodes)@) + self.onboarding_nodes(*entries),
    {
        let ghost before = node_views(nodes@);
        let (position, total) = self.onboarding_step.position();
        push_node(
            nodes,
            shown(
                "onboarding",
                "region",
                "Auru PM setup",
                Some(
                    joined3(count_text(position).as_str(), "/", count_text(total).as_str()),
                ),
            ),
        );
        let step = match self.onboarding_step {
            OnboardingStep::Profile => entry(
                "display-name-input",
                "textbox",
                "Display name",
                &entries.display_name,
            ),
            OnboardingStep::Provider => button(
                "onboarding-choose-provider",
                "Choose a backup destination",
                Some(joined2(count_text(self.connected_count()).as_str(), " connected")),
                true,
            ),
            OnboardingStep::Music => button(
                "onboarding-watch-folder",
                "Choose a project folder",
                Some(joined2(count_text(self.state.watched_folders.len()).as_str(), " watched")),
                !self.scanning,
            ),
        };
        push_node(nodes, step);
        push_node(
            nodes,
            button(
                "continue-onboarding",
                "Continue setup",
                None,
                self.can_continue(entries.display_name.text.as_str()),
            ),
        );
        push_node(nodes, button("previous-onboarding", "Previous setup step", None, true));
        assert(node_views(nodes@) =~= before + self.onboarding_nodes(*entries));
    }

    /// The settings, without the providers.
    pub open spec fn settings_head(self, entries: Entries) -> Seq<NodeView> {
        seq![
            label_node("settings"@, "window"@, "Auru PM settings"@, Some("open"@)),
            button_node("add-provider"@, "Add another provider"@, None, true),
            button_node(
                "automatic-backups"@,
                "Back up automatically after changes"@,
                Some(truth(self.automatic_backups)),
                true,
            ),
            button_node(
                "verify-uploads"@,
                "Verify every copy after upload"@,
                Some(truth(self.verify_uploads)),
                true,
            ),
            button_node(
                "watch-another-folder"@,
                "Watch another project folder"@,
                Some(
                    if self.scanning {
                        "scanning"@
                    } else {
                        "ready"@
                    },
                ),
                !self.scanning,
            ),
            input_node(
                "path-alias-input"@,
                "textbox"@,
                "Recorded path prefix"@,
                entries.path_alias,
            ),
            button_node(
                "add-path-alias"@,
                "Choose local folder for path prefix"@,
                None,
                true,
            ),
            input_node(
                "display-name-setting"@,
                "textbox"@,
                "Display name"@,
                entries.display_name_setting,
            ),
            button_node("save-display-name"@, "Save display name"@, None, true),
            button_node(
                "refresh-provider-projects"@,
                "Refresh provider projects"@,
                Some(
                    if self.remote_refreshing {
                        "refreshing"@
                    } else {
                        "ready"@
                    },
                ),
                !self.remote_refreshing,
            ),
        ]
    }

    /// The settings.
    pub open spec fn settings_nodes(self, entries: Entries) -> Seq<NodeView> {
        self.settings_head(entries) + provider_nodes(
            "settings-provider-"@,
            self.providers@,
            self.providers@.len() as int,
        )
    }

    fn add_settings(&self, nodes: &mut Vec<SemanticNode>, entries: &Entries)
        ensures
            node_views(final(nodes)@) == node_views(old(nodes)@) + self.settings_nodes(*entries),
    {
        let ghost before = node_views(nodes@);
        push_node(
            nodes,
            shown("settings", "window", "Auru PM settings", Some("open".to_owned())),
        );
        push_node(nodes, button("add-provider", "Add another provider", None, true));
        push_node(
            nodes,
            button(
                "automatic-backups",
                "Back up automatically after changes",
                Some(truth_text(self.automatic_backups)),
                true,
            ),
        );
        push_node(
            nodes,
            button(
                "verify-uploads",
                "Verify every copy after upload",
                Some(truth_text(self.verify_uploads)),
                true,
            ),
        );
        let scan = if self.scanning {
            "scanning"
        } else {
            "ready"
        };
        push_node(
            nodes,
            button(
                "watch-another-folder",
                "Watch another project folder",
                Some(scan.to_owned()),
                !self.scanning,
            ),
        );
        push_node(
            nodes,
            entry("path-alias-input", "textbox", "Recorded path prefix", &entries.path_alias),
        );
        push_node(
            nodes,
            button("add-path-alias", "Choose local folder for path prefix", None, true),
        );
        push_node(
            nodes,
            entry(
                "display-name-setting",
                "textbox",
                "Display name",
                &entries.display_name_setting,
            ),
        );
        push_node(nodes, button("save-display-name", "Save display name", None, true));
        let refresh = if self.remote_refreshing {
            "refreshing"
        } else {
            "ready"
        };
        push_node(
            nodes,
            button(
                "refresh-provider-projects",
                "Refresh provider projects",
                Some(refresh.to_owned()),
                !self.remote_refreshing,
            ),
        );
        assert(node_views(nodes@) =~= before + self.settings_head(*entries));
        add_providers(nodes, "settings-provider-", &self.providers);
        assert(node_views(nodes@) =~= before + self.settings_nodes(*entries));
    }

    /// The list of providers to add one from.
    pub open spec fn picker_nodes(self) -> Seq<NodeView> {
        seq![
            label_node(
                "provider-picker"@,
                "dialog"@,
                "Add a provider"@,
                Some(
                    match self.overlay.host {
                        OverlayHost::Main => "main"@,
                        OverlayHost::Settings => "settings"@,
                    },
                ),
            ),
        ] + provider_nodes(
            "catalog-provider-"@,
            self.providers@,
            self.providers@.len() as int,
        ) + seq![
            button_node("add-local-provider"@, "Add a local folder or NAS"@, None, true),
            button_node("close-provider-picker"@, "Close provider picker"@, None, true),
        ]
    }

    fn add_picker(&self, nodes: &mut Vec<SemanticNode>)
        ensures
            node_views(final(nodes)@) == node_views(old(nodes)@) + self.picker_nodes(),
    {
        let ghost before = node_views(nodes@);
        let host = match self.overlay.host {
            OverlayHost::Main => "main",
            OverlayHost::Settings => "settings",
        };
        push_node(
            nodes,
            shown("provider-picker", "dialog", "Add a provider", Some(host.to_owned())),
        );
        add_providers(nodes, "catalog-provider-", &self.providers);
        push_node(nodes, button("add-local-provider", "Add a local folder or NAS", None, true));
        push_node(nodes, button("close-provider-picker", "Close provider picker", None, true));
        assert(node_views(nodes@) =~= before + self.picker_nodes());
    }

    /// Whether signing in to a provider asks for a credential to be pasted.
    pub open spec fn asks_credential(self, index: usize) -> bool {
        index < self.providers@.len() && exists|hint: AuthHint|
            #[trigger] hint.is_for(
                preferred_method(self.providers@[index as int].entry.auth_methods@),
            ) && hint.accepts_credential
    }

    /// What a phase of signing in shows.
    pub open spec fn phase_nodes(self) -> Seq<NodeView> {
        match self.auth_phase {
            AuthPhase::Ready => seq![
                button_node(
                    "begin-provider-auth"@,
                    "Begin provider authentication"@,
                    None,
                    true,
                ),
            ],
            AuthPhase::Waiting => Seq::empty(),
            AuthPhase::DeviceCode { user_code, verification_uri } => seq![
                label_node(
                    "provider-device-code"@,
                    "status"@,
                    "Provider device code"@,
                    Some(user_code@),
                ),
                button_node(
                    "open-provider-sign-in"@,
                    "Open provider sign-in page"@,
                    Some(verification_uri@),
                    true,
                ),
            ],
            AuthPhase::Complete { detail } => seq![
                button_node("finish-provider-auth"@, "Return to settings"@, Some(detail@), true),
            ],
            AuthPhase::Failed(message) => seq![
                button_node(
                    "retry-provider-auth"@,
                    "Retry provider authentication"@,
                    Some(message@),
                    true,
                ),
            ],
        }
    }

    fn add_phase(&self, nodes: &mut Vec<SemanticNode>)
        ensures
            node_views(final(nodes)@) == node_views(old(nodes)@) + self.phase_nodes(),
    {
        let ghost before = node_views(nodes@);
        match &self.auth_phase {
            AuthPhase::Ready => {
                push_node(
                    nodes,
                    button("begin-provider-auth", "Begin provider authentication", None, true),
                );
            },
            AuthPhase::Waiting => {},
            AuthPhase::DeviceCode { user_code, verification_uri } => {
                push_node(
                    nodes,
                    shown(
                        "provider-device-code",
                        "status",
                        "Provider device code",
                        Some(user_code.clone()),
                    ),
                );
                push_node(
                    nodes,
                    button(
                        "open-provider-sign-in",
                        "Open provider sign-in page",
                        Some(verification_uri.clone()),
                        true,
                    ),
                );
            },
            AuthPhase::Complete { detail } => {
                push_node(
                    nodes,
                    button(
                        "finish-provider-auth",
                        "Return to settings",
                        Some(detail.clone()),
                        true,
                    ),
                );
            },
            AuthPhase::Failed(message) => {
                push_node(
                    nodes,
                    button(
                        "retry-provider-auth",
                        "Retry provider authentication",
                        Some(message.clone()),
                        true,
                    ),
                );
            },
        }
        assert(node_views(nodes@) =~= before + self.phase_nodes());
    }

    /// Signing in to a provider. Of a pasted credential only that there is one
    /// is shown.
    pub open spec fn sign_in_nodes(self, index: usize, entries: Entries) -> Seq<NodeView> {
        seq![
            label_node(
                "provider-auth"@,
                "dialog"@,
                "Connect "@ + (if index < self.providers@.len() {
                    self.providers@[index as int].entry.name@
                } else {
                    "Unavailable provider"@
                }),
                Some(self.auth_phase.inspection_text()),
            ),
        ] + (if self.asks_credential(index) {
            seq![
                node_of(
                    "credential-input"@,
                    "textbox"@,
                    "Personal access token"@,
                    Some(
                        if entries.credential.text@.len() == 0 {
                            "empty"@
                        } else {
                            "provided"@
                        },
                    ),
                    entries.credential.focused,
                    NodeActions::Type.texts(),
                ),
            ]
        } else {
            Seq::empty()
        }) + self.phase_nodes() + seq![
            button_node("cancel-provider-auth"@, "Cancel provider authentication"@, None, true),
        ]
    }

    fn add_sign_in(&self, nodes: &mut Vec<SemanticNode>, index: usize, entries: &Entries)
        ensures
            node_views(final(nodes)@) == node_views(old(nodes)@) + self.sign_in_nodes(
                index,
                *entries,
            ),
    {
        let ghost before = node_views(nodes@);
        let mut asks = false;
        let mut name = "Unavailable provider".to_owned();
        if index < self.providers.len() {
            name = self.providers[index].entry.name.clone();
            let hint = self.providers[index].auth_hint();
            asks = hint.accepts_credential;
            assert(hint.is_for(
                preferred_method(self.providers@[index as int].entry.auth_methods@),
            ));
        }
        push_node(
            nodes,
            shown(
                "provider-auth",
                "dialog",
                joined2("Connect ", name.as_str()).as_str(),
                Some(self.auth_phase.inspection_value().to_owned()),
            ),
        );
        if asks {
            let state = if entries.credential.text.as_str().unicode_len() == 0 {
                "empty"
            } else {
                "provided"
            };
            push_node(
                nodes,
                node(
                    "credential-input",
                    "textbox",
                    "Personal access token",
                    Some(state.to_owned()),
                    entries.credential.focused,
                    NodeActions::Type.names(),
                ),
            );
        }
        self.add_phase(nodes);
        push_node(
            nodes,
            button("cancel-provider-auth", "Cancel provider authentication", None, true),
        );
        assert(node_views(nodes@) =~= before + self.sign_in_nodes(index, *entries));
    }

    /// What lies over a window.
    pub open spec fn overlay_nodes(self, host: OverlayHost, entries: Entries) -> Seq<NodeView> {
        match self.overlay.shown(host) {
            Some(Overlay::ProviderPicker) => self.picker_nodes(),
            Some(Overlay::Authenticate { provider_index }) => self.sign_in_nodes(
                provider_index,
                entries,
            ),
            Some(Overlay::ConflictResolver) => seq![
                label_node(
                    "conflict-resolver"@,
                    "dialog"@,
                    "Resolve backup conflict"@,
                    match self.pending_conflict {
                        Some(pending) => Some(pending.project_name@),
                        None => None,
                    },
                ),
            ],
            _ => Seq::empty(),
        }
    }

    fn add_overlay(&self, nodes: &mut Vec<SemanticNode>, host: OverlayHost, entries: &Entries)
        ensures
            node_views(final(nodes)@) == node_views(old(nodes)@) + self.overlay_nodes(
                host,
                *entries,
            ),
    {
        let ghost before = node_views(nodes@);
        match self.overlay.visible_for(host) {
            Some(Overlay::ProviderPicker) => {
                self.add_picker(nodes);
            },
            Some(Overlay::Authenticate { provider_index }) => {
                self.add_sign_in(nodes, provider_index, entries);
            },
            Some(Overlay::ConflictResolver) => {
                let name = match &self.pending_conflict {
                    Some(pending) => Some(pending.project_name.clone()),
                    None => None,
                };
                push_node(
                    nodes,
                    shown("conflict-resolver", "dialog", "Resolve backup conflict", name),
                );
            },
            _ => {},
        }
        assert(node_views(nodes@) =~= before + self.overlay_nodes(host, *entries));
    }

    /// The window that a surface is in.
    pub open spec fn host_of(surface: Surface) -> OverlayHost {
        if surface is Settings {
            OverlayHost::Settings
        } else {
            OverlayHost::Main
        }
    }

    /// What inspection sees of a surface.
    pub open spec fn tree(self, surface: Surface, entries: Entries) -> Seq<NodeView> {
        (if surface is Settings {
            self.settings_nodes(entries)
        } else {
            match self.route {
                Route::Library => self.library_nodes(entries),
                Route::Onboarding => self.onboarding_nodes(entries),
            }
        }) + self.overlay_nodes(Self::host_of(surface), entries)
    }

    /// What inspection sees of a surface: the window's own nodes, then those of
    /// what lies over it.
    pub fn inspection_nodes(&self, surface: Surface, entries: &Entries) -> (r: Vec<SemanticNode>)
        ensures
            node_views(r@) == self.tree(surface, *entries),
    {
        let mut nodes: Vec<SemanticNode> = Vec::new();
        assert(node_views(nodes@) =~= Seq::empty());
        let mut host = OverlayHost::Main;
        if surface == Surface::Settings {
            host = OverlayHost::Settings;
            self.add_settings(&mut nodes, entries);
        } else {
            match self.route {
                Route::Library => self.add_library(&mut nodes, entries),
                Route::Onboarding => self.add_onboarding(&mut nodes, entries),
            }
        }
        self.add_overlay(&mut nodes, host, entries);
        assert(node_views(nodes@) =~= self.tree(surface, *entries));
        nodes
    }

    /// The surface that a window shows.
    pub fn inspected_surface(&self, is_settings: bool) -> (r: Surface)
        ensures
            r == (if is_settings {
                Surface::Settings
            } else {
                self.route.surface()
            }),
    {
        if is_settings {
            Surface::Settings
        } else {
            self.route.inspection_surface()
        }
    }
}

/// Whether the root has the focus: in an active window, where no node has it.
pub fn root_focused(active: bool, nodes: &Vec<SemanticNode>) -> (r: bool)
    ensures
        r == (active && forall|i: int|
            0 <= i < nodes@.len() ==> !(#[trigger] node_views(nodes@)[i]).focused),
{
    let mut i: usize = 0;
    while i < nodes.len()
        invariant
            i <= nodes@.len(),
            forall|j: int| 0 <= j < i ==> !(#[trigger] node_views(nodes@)[j]).focused,
        decreases nodes@.len() - i,
    {
        if nodes[i].focused {
            assert(node_views(nodes@)[i as int].focused);
            return false;
        }
        i = i + 1;
    }
    active
}

// ---------------------------------------------------------------------------
// Focus
// ---------------------------------------------------------------------------

/// What can have the focus.
#[derive(Clone, Copy, Debug, PartialEq, Eq, Structural)]
pub enum FocusTarget {
    Search,
    DisplayName,
    DisplayNameSetting,
    Credential,
    PathAlias,
    Genre,
    Tags,
    BpmRangeMin,
    BpmRangeMax,
    /// The window itself.
    Root,
}

impl FocusTarget {
    /// The name of the node that the target has in the tree.
    pub open spec fn node(self) -> Seq<char> {
        match self {
            FocusTarget::Search => "search-projects"@,
            FocusTarget::DisplayName => "display-name-input"@,
            FocusTarget::DisplayNameSetting => "display-name-setting"@,
            FocusTarget::Credential => "credential-input"@,
            FocusTarget::PathAlias => "path-alias-input"@,
            FocusTarget::Genre => "project-genre-input"@,
            FocusTarget::Tags => "project-tags-input"@,
            FocusTarget::BpmRangeMin => "bpm-range-min-input"@,
            FocusTarget::BpmRangeMax => "bpm-range-max-input"@,
            FocusTarget::Root => ROOT_ID@,
        }
    }

    /// The name of the node that the target has in the tree.
    pub fn id(self) -> (r: &'static str)
        ensures
            r@ == self.node(),
    {
        match self {
            FocusTarget::Search => "search-projects",
            FocusTarget::DisplayName => "display-name-input",
            FocusTarget::DisplayNameSetting => "display-name-setting",
            FocusTarget::Credential => "credential-input",
            FocusTarget::PathAlias => "path-alias-input",
            FocusTarget::Genre => "project-genre-input",
            FocusTarget::Tags => "project-tags-input",
            FocusTarget::BpmRangeMin => "bpm-range-min-input",
            FocusTarget::BpmRangeMax => "bpm-range-max-input",
            FocusTarget::Root => ROOT_ID,
        }
    }
}

fn is_target(target: FocusTarget, id: &str) -> (r: bool)
    ensures
        r == (target.node() == id@),
{
    same(target.id(), id)
}

/// What gets the focus when a node is asked to take it.
pub fn inspection_focus(id: &str) -> (r: Result<FocusTarget, String>)
    ensures
        match r {
            Ok(target) => target.node() == id@,
            Err(message) => {
                &&& forall|target: FocusTarget| #[trigger] target.node() != id@
                &&& message@ == "semantic node '"@ + id@ + "' cannot receive focus"@
            },
        },
{
    if is_target(FocusTarget::Search, id) {
        Ok(FocusTarget::Search)
    } else if is_target(FocusTarget::DisplayName, id) {
        Ok(FocusTarget::DisplayName)
    } else if is_target(FocusTarget::DisplayNameSetting, id) {
        Ok(FocusTarget::DisplayNameSetting)
    } else if is_target(FocusTarget::Credential, id) {
        Ok(FocusTarget::Credential)
    } else if is_target(FocusTarget::PathAlias, id) {
        Ok(FocusTarget::PathAlias)
    } else if is_target(FocusTarget::Genre, id) {
        Ok(FocusTarget::Genre)
    } else if is_target(FocusTarget::Tags, id) {
        Ok(FocusTarget::Tags)
    } else if is_target(FocusTarget::BpmRangeMin, id) {
        Ok(FocusTarget::BpmRangeMin)
    } else if is_target(FocusTarget::BpmRangeMax, id) {
        Ok(FocusTarget::BpmRangeMax)
    } else if is_target(FocusTarget::Root, id) {
        Ok(FocusTarget::Root)
    } else {
        Err(joined3("semantic node '", id, "' cannot receive focus"))
    }
}

// ---------------------------------------------------------------------------
// Clicks
// ---------------------------------------------------------------------------

/// What a click asks for.
#[derive(Debug)]
pub enum ClickAction {
    BackUpAll,
    RefreshLibrary,
    OpenSettings,
    ShowProviderPicker(OverlayHost),
    WatchFolder,
    ContinueOnboarding,
    PreviousOnboardingStep,
    SetAutomaticBackups(bool),
    SetVerifyUploads(bool),
    AddPathAlias,
    SaveDisplayName,
    RefreshProviderProjects,
    CloseProviderPicker,
    AddLocalProvider,
    SaveProjectMetadata(usize),
    BeginProviderAuth(usize),
    OpenUrl(String),
    FinishProviderAuth(usize),
    RetryProviderAuth,
    CancelProviderAuth,
    ActOnProject(usize),
    SelectProject(usize),
    SelectProvider(usize, OverlayHost),
}

/// Whether a project is the first with a name made from its identity.
pub open spec fn is_named(projects: Seq<Project>, prefix: Seq<char>, id: Seq<char>, at: int) -> bool {
    &&& 0 <= at < projects.len()
    &&& opaque_id(prefix, vstd::utf8::encode_utf8(projects[at].id@)) == id
    &&& forall|i: int|
        0 <= i < at ==> opaque_id(
            prefix,
            vstd::utf8::encode_utf8((#[trigger] projects[i]).id@),
        ) != id
}

/// Whether no project has a name made from its identity.
pub open spec fn is_no_name(projects: Seq<Project>, prefix: Seq<char>, id: Seq<char>) -> bool {
    forall|i: int|
        0 <= i < projects.len() ==> opaque_id(
            prefix,
            vstd::utf8::encode_utf8((#[trigger] projects[i]).id@),
        ) != id
}

fn named_project(projects: &Vec<Project>, prefix: &str, id: &str) -> (r: Option<usize>)
    ensures
        match r {
            Some(at) => is_named(projects@, prefix@, id@, at as int),
            None => is_no_name(projects@, prefix@, id@),
        },
{
    let mut i: usize = 0;
    while i < projects.len()
        invariant
            i <= projects@.len(),
            forall|j: int|
                0 <= j < i ==> opaque_id(
                    prefix@,
                    vstd::utf8::encode_utf8((#[trigger] projects@[j]).id@),
                ) != id@,
        decreases projects@.len() - i,
    {
        if same(stable_id(prefix, projects[i].id.as_str()).as_str(), id) {
            return Some(i);
        }
        i = i + 1;
    }
    None
}

/// Whether a provider is the first listed under an id.
pub open spec fn is_provider(providers: Seq<ProviderListing>, id: Seq<char>, at: int) -> bool {
    &&& 0 <= at < providers.len()
    &&& providers[at].entry.id@ == id
    &&& forall|i: int| 0 <= i < at ==> (#[trigger] providers[i]).entry.id@ != id
}

/// Whether no provider is listed under an id.
pub open spec fn is_no_provider(providers: Seq<ProviderListing>, id: Seq<char>) -> bool {
    forall|i: int| 0 <= i < providers.len() ==> (#[trigger] providers[i]).entry.id@ != id
}

fn provider_named(providers: &Vec<ProviderListing>, id: &str) -> (r: Option<usize>)
    ensures
        match r {
            Some(at) => is_provider(providers@, id@, at as int),
            None => is_no_provider(providers@, id@),
        },
{
    let mut i: usize = 0;
    while i < providers.len()
        invariant
            i <= providers@.len(),
            forall|j: int| 0 <= j < i ==> (#[trigger] providers@[j]).entry.id@ != id@,
        decreases providers@.len() - i,
    {
        if same(providers[i].entry.id.as_str(), id) {
            return Some(i);
        }
        i = i + 1;
    }
    None
}

/// Whether something was refused with a message.
pub open spec fn refuses(r: Result<ClickAction, String>, message: Seq<char>) -> bool {
    r is Err && r->Err_0@ == message
}

impl ProjectManager {
    /// Whether a click on a provider's row is answered: one that is connected
    /// already is not chosen again.
    pub open spec fn answers_provider(
        self,
        id: Seq<char>,
        host: OverlayHost,
        r: Result<ClickAction, String>,
    ) -> bool {
        match r {
            Ok(action) => {
                &&& action matches ClickAction::SelectProvider(at, over)
                &&& over == host
                &&& is_provider(self.providers@, id, at as int)
                &&& !(self.providers@[at as int].availability is Connected)
            },
            Err(message) => if is_no_provider(self.providers@, id) {
                message@ == "unknown provider '"@ + id + "'"@
            } else {
                &&& exists|at: int| #[trigger]
                    is_provider(self.providers@, id, at) && self.providers@[at].availability
                        is Connected
                &&& message@ == "that provider is already connected"@
            },
        }
    }

    fn click_provider(&self, id: &str, host: OverlayHost) -> (r: Result<ClickAction, String>)
        ensures
            self.answers_provider(id@, host, r),
    {
        match provider_named(&self.providers, id) {
            None => Err(joined3("unknown provider '", id, "'")),
            Some(at) => {
                if self.providers[at].is_connected() {
                    assert(is_provider(self.providers@, id@, at as int));
                    assert(self.providers@[at as int].entry.id@ == id@);
                    Err("that provider is already connected".to_owned())
                } else {
                    Ok(ClickAction::SelectProvider(at, host))
                }
            },
        }
    }

    /// Whether a click on something that is named after a project or a
    /// provider is answered.
    pub open spec fn answers_named(self, id: Seq<char>, r: Result<ClickAction, String>) -> bool {
        if starts(id, "project-primary-action-"@) {
            match r {
                Ok(action) => {
                    &&& action matches ClickAction::ActOnProject(at)
                    &&& is_named(self.projects@, "project-primary-action"@, id, at as int)
                    &&& !(self.projects@[at as int].status.next_action() is Wait)
                },
                Err(message) => if is_no_name(self.projects@, "project-primary-action"@, id) {
                    message@ == "unknown semantic project action '"@ + id + "'"@
                } else {
                    &&& exists|at: int| #[trigger]
                        is_named(self.projects@, "project-primary-action"@, id, at)
                            && self.projects@[at].status.next_action() is Wait
                    &&& message@ == "that project action is currently unavailable"@
                },
            }
        } else if starts(id, "project-"@) {
            match r {
                Ok(action) => {
                    &&& action matches ClickAction::SelectProject(at)
                    &&& is_named(self.projects@, "project"@, id, at as int)
                },
                Err(message) => {
                    &&& is_no_name(self.projects@, "project"@, id)
                    &&& message@ == "unknown semantic project '"@ + id + "'"@
                },
            }
        } else if starts(id, "settings-provider-"@) {
            self.answers_provider(
                id.skip("settings-provider-"@.len() as int),
                OverlayHost::Settings,
                r,
            )
        } else if starts(id, "catalog-provider-"@) {
            self.answers_provider(
                id.skip("catalog-provider-"@.len() as int),
                self.overlay.host,
                r,
            )
        } else {
            refuses(r, "semantic node '"@ + id + "' is not clickable"@)
        }
    }

    fn click_named(&self, id: &str) -> (r: Result<ClickAction, String>)
        ensures
            self.answers_named(id@, r),
    {
        if starts_with(id, "project-primary-action-") {
            return match named_project(&self.projects, "project-primary-action", id) {
                None => Err(joined3("unknown semantic project action '", id, "'")),
                Some(at) => {
                    assert(is_named(
                        self.projects@,
                        "project-primary-action"@,
                        id@,
                        at as int,
                    ));
                    assert(self.projects@[at as int].id@ == self.projects@[at as int].id@);
                    if self.projects[at].status.action() == ProjectAction::Wait {
                        Err("that project action is currently unavailable".to_owned())
                    } else {
                        Ok(ClickAction::ActOnProject(at))
                    }
                },
            };
        }
        if starts_with(id, "project-") {
            return match named_project(&self.projects, "project", id) {
                None => Err(joined3("unknown semantic project '", id, "'")),
                Some(at) => Ok(ClickAction::SelectProject(at)),
            };
        }
        if let Some(provider) = after_prefix(id, "settings-provider-") {
            return self.click_provider(provider.as_str(), OverlayHost::Settings);
        }
        if let Some(provider) = after_prefix(id, "catalog-provider-") {
            return self.click_provider(provider.as_str(), self.overlay.host);
        }
        Err(joined3("semantic node '", id, "' is not clickable"))
    }

    /// Whether a click on a button of the main window is answered.
    pub open spec fn answers_main(self, id: Seq<char>, r: Result<ClickAction, String>) -> bool {
        if id == "backup-all"@ {
            r matches Ok(ClickAction::BackUpAll)
        } else if id == "shortcut-refresh"@ {
            r matches Ok(ClickAction::RefreshLibrary)
        } else if id == "open-settings"@ {
            r matches Ok(ClickAction::OpenSettings)
        } else if id == "onboarding-choose-provider"@ {
            r matches Ok(ClickAction::ShowProviderPicker(OverlayHost::Main))
        } else if id == "onboarding-watch-folder"@ || id == "watch-another-folder"@ {
            if self.scanning {
                refuses(r, "a project-folder scan is already running"@)
            } else {
                r matches Ok(ClickAction::WatchFolder)
            }
        } else if id == "continue-onboarding"@ {
            r matches Ok(ClickAction::ContinueOnboarding)
        } else if id == "previous-onboarding"@ {
            r matches Ok(ClickAction::PreviousOnboardingStep)
        } else if id == "save-project-metadata"@ {
            r == Ok::<ClickAction, String>(ClickAction::SaveProjectMetadata(self.selected_project))
        } else {
            self.answers_settings(id, r)
        }
    }

    /// Whether a click on a button of the settings is answered.
    pub open spec fn answers_settings(self, id: Seq<char>, r: Result<ClickAction, String>) -> bool {
        if id == "add-provider"@ {
            r matches Ok(ClickAction::ShowProviderPicker(OverlayHost::Settings))
        } else if id == "automatic-backups"@ {
            r == Ok::<ClickAction, String>(
                ClickAction::SetAutomaticBackups(!self.automatic_backups),
            )
        } else if id == "verify-uploads"@ {
            r == Ok::<ClickAction, String>(ClickAction::SetVerifyUploads(!self.verify_uploads))
        } else if id == "add-path-alias"@ {
            r matches Ok(ClickAction::AddPathAlias)
        } else if id == "save-display-name"@ {
            r matches Ok(ClickAction::SaveDisplayName)
        } else if id == "refresh-provider-projects"@ {
            if self.remote_refreshing {
                refuses(r, "provider projects are already refreshing"@)
            } else {
                r matches Ok(ClickAction::RefreshProviderProjects)
            }
        } else {
            self.answers_overlay(id, r)
        }
    }

    /// Whether a click on a button of an overlay is answered.
    pub open spec fn answers_overlay(self, id: Seq<char>, r: Result<ClickAction, String>) -> bool {
        if id == "close-provider-picker"@ {
            r matches Ok(ClickAction::CloseProviderPicker)
        } else if id == "add-local-provider"@ {
            r matches Ok(ClickAction::AddLocalProvider)
        } else if id == "begin-provider-auth"@ {
            match self.overlay.overlay {
                Overlay::Authenticate { provider_index } => r == Ok::<ClickAction, String>(
                    ClickAction::BeginProviderAuth(provider_index),
                ),
                _ => refuses(r, "provider authentication is not open"@),
            }
        } else if id == "open-provider-sign-in"@ {
            match self.auth_phase {
                AuthPhase::DeviceCode { verification_uri, .. } => {
                    &&& r matches Ok(ClickAction::OpenUrl(url))
                    &&& url@ == verification_uri@
                },
                _ => refuses(r, "the provider has not supplied a sign-in page"@),
            }
        } else if id == "finish-provider-auth"@ {
            match self.overlay.overlay {
                Overlay::Authenticate { provider_index } => r == Ok::<ClickAction, String>(
                    ClickAction::FinishProviderAuth(provider_index),
                ),
                _ => refuses(r, "provider authentication is not open"@),
            }
        } else if id == "retry-provider-auth"@ {
            r matches Ok(ClickAction::RetryProviderAuth)
        } else if id == "cancel-provider-auth"@ {
            r matches Ok(ClickAction::CancelProviderAuth)
        } else {
            self.answers_named(id, r)
        }
    }

    fn click_overlay(&self, id: &str) -> (r: Result<ClickAction, String>)
        ensures
            self.answers_overlay(id@, r),
    {
        if same(id, "close-provider-picker") {
            Ok(ClickAction::CloseProviderPicker)
        } else if same(id, "add-local-provider") {
            Ok(ClickAction::AddLocalProvider)
        } else if same(id, "begin-provider-auth") {
            match self.overlay.overlay {
                Overlay::Authenticate { provider_index } => Ok(
                    ClickAction::BeginProviderAuth(provider_index),
                ),
                _ => Err("provider authentication is not open".to_owned()),
            }
        } else if same(id, "open-provider-sign-in") {
            match &self.auth_phase {
                AuthPhase::DeviceCode { verification_uri, .. } => Ok(
                    ClickAction::OpenUrl(verification_uri.clone()),
                ),
                _ => Err("the provider has not supplied a sign-in page".to_owned()),
            }
        } else if same(id, "finish-provider-auth") {
            match self.overlay.overlay {
                Overlay::Authenticate { provider_index } => Ok(
                    ClickAction::FinishProviderAuth(provider_index),
                ),
                _ => Err("provider authentication is not open".to_owned()),
            }
        } else if same(id, "retry-provider-auth") {
            Ok(ClickAction::RetryProviderAuth)
        } else if same(id, "cancel-provider-auth") {
            Ok(ClickAction::CancelProviderAuth)
        } else {
            self.click_named(id)
        }
    }

    fn click_settings(&self, id: &str) -> (r: Result<ClickAction, String>)
        ensures
            self.answers_settings(id@, r),
    {
        if same(id, "add-provider") {
            Ok(ClickAction::ShowProviderPicker(OverlayHost::Settings))
        } else if same(id, "automatic-backups") {
            Ok(ClickAction::SetAutomaticBackups(!self.automatic_backups))
        } else if same(id, "verify-uploads") {
            Ok(ClickAction::SetVerifyUploads(!self.verify_uploads))
        } else if same(id, "add-path-alias") {
            Ok(ClickAction::AddPathAlias)
        } else if same(id, "save-display-name") {
            Ok(ClickAction::SaveDisplayName)
        } else if same(id, "refresh-provider-projects") {
            if self.remote_refreshing {
                Err("provider projects are already refreshing".to_owned())
            } else {
                Ok(ClickAction::RefreshProviderProjects)
            }
        } else {
            self.click_overlay(id)
        }
    }

    /// What a click on a node asks for, or why it is refused.
    pub fn inspection_click(&self, id: &str) -> (r: Result<ClickAction, String>)
        ensures
            self.answers_main(id@, r),
    {
        if same(id, "backup-all") {
            Ok(ClickAction::BackUpAll)
        } else if same(id, "shortcut-refresh") {
            Ok(ClickAction::RefreshLibrary)
        } else if same(id, "open-settings") {
            Ok(ClickAction::OpenSettings)
        } else if same(id, "onboarding-choose-provider") {
            Ok(ClickAction::ShowProviderPicker(OverlayHost::Main))
        } else if same(id, "onboarding-watch-folder") || same(id, "watch-another-folder") {
            if self.scanning {
                Err("a project-folder scan is already running".to_owned())
            } else {
                Ok(ClickAction::WatchFolder)
            }
        } else if same(id, "continue-onboarding") {
            Ok(ClickAction::ContinueOnboarding)
        } else if same(id, "previous-onboarding") {
            Ok(ClickAction::PreviousOnboardingStep)
        } else if same(id, "save-project-metadata") {
            Ok(ClickAction::SaveProjectMetadata(self.selected_project))
        } else {
            self.click_settings(id)
        }
    }
}

// ---------------------------------------------------------------------------
// Laws
// ---------------------------------------------------------------------------

/// Whether a node can take the focus.
pub open spec fn takes_focus(id: Seq<char>) -> bool {
    exists|target: FocusTarget| #[trigger] target.node() == id
}

/// Whether every node that can be typed into can take the focus.
pub open spec fn all_take_focus(nodes: Seq<NodeView>) -> bool {
    forall|i: int|
        0 <= i < nodes.len() && (#[trigger] nodes[i]).actions == NodeActions::Type.texts()
            ==> takes_focus(nodes[i].id)
}

proof fn actions_differ()
    ensures
        NodeActions::Nothing.texts() != NodeActions::Type.texts(),
        NodeActions::Click.texts() != NodeActions::Type.texts(),
{
    assert(NodeActions::Nothing.texts().len() == 0);
    assert(NodeActions::Click.texts().len() == 1);
    assert(NodeActions::Type.texts().len() == 2);
}

proof fn provider_nodes_take_focus(prefix: Seq<char>, providers: Seq<ProviderListing>, n: int)
    ensures
        all_take_focus(provider_nodes(prefix, providers, n)),
    decreases n,
{
    actions_differ();
    if n > 0 {
        provider_nodes_take_focus(prefix, providers, n - 1);
    }
}

proof fn row_takes_focus(manager: ProjectManager, at: int, entries: Entries)
    ensures
        all_take_focus(manager.row_nodes(at, entries)),
{
    actions_differ();
    assert(takes_focus(FocusTarget::Genre.node()));
    assert(takes_focus(FocusTarget::Tags.node()));
}

proof fn rows_take_focus(manager: ProjectManager, places: Seq<usize>, entries: Entries, n: int)
    ensures
        all_take_focus(manager.rows_nodes(places, entries, n)),
    decreases n,
{
    if n > 0 {
        rows_take_focus(manager, places, entries, n - 1);
        row_takes_focus(manager, places[n - 1] as int, entries);
    }
}

proof fn window_takes_focus(manager: ProjectManager, entries: Entries)
    ensures
        all_take_focus(manager.library_nodes(entries)),
        all_take_focus(manager.onboarding_nodes(entries)),
        all_take_focus(manager.settings_nodes(entries)),
{
    actions_differ();
    let places = manager.visible(entries.query);
    let n = if places.len() < PAGE {
        places.len() as int
    } else {
        PAGE as int
    };
    rows_take_focus(manager, places, entries, n);
    assert(takes_focus(FocusTarget::Search.node()));
    assert(takes_focus(FocusTarget::BpmRangeMin.node()));
    assert(takes_focus(FocusTarget::BpmRangeMax.node()));
    assert(takes_focus(FocusTarget::DisplayName.node()));
    assert(takes_focus(FocusTarget::DisplayNameSetting.node()));
    assert(takes_focus(FocusTarget::PathAlias.node()));
    assert(all_take_focus(manager.library_head(entries)));
    assert(all_take_focus(manager.settings_head(entries)));
    provider_nodes_take_focus(
        "settings-provider-"@,
        manager.providers@,
        manager.providers@.len() as int,
    );
}

proof fn overlay_takes_focus(manager: ProjectManager, host: OverlayHost, entries: Entries)
    ensures
        all_take_focus(manager.overlay_nodes(host, entries)),
{
    actions_differ();
    assert(takes_focus(FocusTarget::Credential.node()));
    provider_nodes_take_focus(
        "catalog-provider-"@,
        manager.providers@,
        manager.providers@.len() as int,
    );
    assert(all_take_focus(manager.picker_nodes()));
    assert(all_take_focus(manager.phase_nodes()));
}

/// Every field of the tree that can be typed into can be given the focus.
pub proof fn every_field_takes_focus(
    manager: ProjectManager,
    surface: Surface,
    entries: Entries,
    i: int,
)
    requires
        0 <= i < manager.tree(surface, entries).len(),
        manager.tree(surface, entries)[i].actions == NodeActions::Type.texts(),
    ensures
        takes_focus(manager.tree(surface, entries)[i].id),
{
    window_takes_focus(manager, entries);
    overlay_takes_focus(manager, ProjectManager::host_of(surface), entries);
}

proof fn rows_ignore_credential(
    manager: ProjectManager,
    places: Seq<usize>,
    entries: Entries,
    other: InputValue,
    n: int,
)
    ensures
        manager.rows_nodes(places, entries, n) == manager.rows_nodes(
            places,
            (Entries { credential: other, ..entries }),
            n,
        ),
    decreases n,
{
    if n > 0 {
        rows_ignore_credential(manager, places, entries, other, n - 1);
    }
}

/// A typed credential never shows: the tree is the same for any two of them.
pub proof fn credentials_stay_hidden(
    manager: ProjectManager,
    surface: Surface,
    entries: Entries,
    other: InputValue,
)
    requires
        entries.credential.text@.len() > 0,
        other.text@.len() > 0,
        other.focused == entries.credential.focused,
    ensures
        manager.tree(surface, entries) == manager.tree(
            surface,
            (Entries { credential: other, ..entries }),
        ),
{
    let places = manager.visible(entries.query);
    let n = if places.len() < PAGE {
        places.len() as int
    } else {
        PAGE as int
    };
    rows_ignore_credential(manager, places, entries, other, n);
}

proof fn rows_are_bounded(manager: ProjectManager, places: Seq<usize>, entries: Entries, n: int)
    requires
        0 <= n,
    ensures
        manager.rows_nodes(places, entries, n).len() <= 5 * n,
    decreases n,
{
    if n > 0 {
        rows_are_bounded(manager, places, entries, n - 1);
    }
}

/// However large the library is, its tree stays within a page.
pub proof fn library_trees_are_bounded(manager: ProjectManager, entries: Entries)
    ensures
        manager.library_nodes(entries).len() <= 7 + 5 * PAGE,
{
    let places = manager.visible(entries.query);
    let n = if places.len() < PAGE {
        places.len() as int
    } else {
        PAGE as int
    };
    rows_are_bounded(manager, places, entries, n);
}

/// Whether a click on a node is answered, whatever the answer.
pub open spec fn click_is_answered(manager: ProjectManager, id: Seq<char>) -> bool {
    forall|r: Result<ClickAction, String>| #[trigger] manager.answers_main(id, r) ==> r is Ok
}

/// Whether every node that can be clicked is answered.
pub open spec fn all_are_answered(manager: ProjectManager, nodes: Seq<NodeView>) -> bool {
    forall|i: int|
        0 <= i < nodes.len() && (#[trigger] nodes[i]).actions == NodeActions::Click.texts()
            ==> click_is_answered(manager, nodes[i].id)
}

/// Whether no two projects share a name in the tree.
pub open spec fn projects_are_apart(projects: Seq<Project>) -> bool {
    forall|prefix: Seq<char>, i: int, j: int|
        0 <= i < projects.len() && 0 <= j < projects.len() && i != j ==> #[trigger] opaque_id(
            prefix,
            vstd::utf8::encode_utf8(projects[i].id@),
        ) != #[trigger] opaque_id(prefix, vstd::utf8::encode_utf8(projects[j].id@))
}

/// Whether no two providers share an id.
pub open spec fn providers_are_apart(providers: Seq<ProviderListing>) -> bool {
    forall|i: int, j: int|
        0 <= i < providers.len() && 0 <= j < providers.len() && i != j ==> (
        #[trigger] providers[i]).entry.id@ != (#[trigger] providers[j]).entry.id@
}

/// The buttons that are refused in some states.
spec fn is_conditional(id: Seq<char>) -> bool {
    ||| id == "onboarding-watch-folder"@
    ||| id == "watch-another-folder"@
    ||| id == "refresh-provider-projects"@
    ||| id == "begin-provider-auth"@
    ||| id == "open-provider-sign-in"@
    ||| id == "finish-provider-auth"@
}

proof fn click_actions_differ()
    ensures
        NodeActions::Nothing.texts() != NodeActions::Click.texts(),
        NodeActions::Type.texts() != NodeActions::Click.texts(),
{
    assert(NodeActions::Nothing.texts().len() == 0);
    assert(NodeActions::Click.texts().len() == 1);
    assert(NodeActions::Type.texts().len() == 2);
}

/// The lengths and first letters of those buttons' names.
spec fn is_conditional_shape(len: nat, first: char) -> bool {
    ||| len == 23 && first == 'o'
    ||| len == 20 && first == 'w'
    ||| len == 25 && first == 'r'
    ||| len == 19 && first == 'b'
    ||| len == 21 && first == 'o'
    ||| len == 20 && first == 'f'
}

proof fn conditional_names_have_shapes(id: Seq<char>)
    requires
        is_conditional(id),
    ensures
        is_conditional_shape(id.len(), id[0]),
{
    reveal_strlit("onboarding-watch-folder");
    reveal_strlit("watch-another-folder");
    reveal_strlit("refresh-provider-projects");
    reveal_strlit("begin-provider-auth");
    reveal_strlit("open-provider-sign-in");
    reveal_strlit("finish-provider-auth");
    assert("onboarding-watch-folder"@.len() == 23 && "onboarding-watch-folder"@[0] == 'o');
    assert("watch-another-folder"@.len() == 20 && "watch-another-folder"@[0] == 'w');
    assert("refresh-provider-projects"@.len() == 25 && "refresh-provider-projects"@[0] == 'r');
    assert("begin-provider-auth"@.len() == 19 && "begin-provider-auth"@[0] == 'b');
    assert("open-provider-sign-in"@.len() == 21 && "open-provider-sign-in"@[0] == 'o');
    assert("finish-provider-auth"@.len() == 20 && "finish-provider-auth"@[0] == 'f');
}

proof fn plain_buttons()
    ensures
        !is_conditional("backup-all"@),
        !is_conditional("shortcut-refresh"@),
        !is_conditional("open-settings"@),
        !is_conditional("onboarding-choose-provider"@),
        !is_conditional("continue-onboarding"@),
        !is_conditional("previous-onboarding"@),
        !is_conditional("save-project-metadata"@),
        !is_conditional("add-provider"@),
        !is_conditional("automatic-backups"@),
        !is_conditional("verify-uploads"@),
        !is_conditional("add-path-alias"@),
        !is_conditional("save-display-name"@),
        !is_conditional("close-provider-picker"@),
        !is_conditional("add-local-provider"@),
        !is_conditional("retry-provider-auth"@),
        !is_conditional("cancel-provider-auth"@),
{
    reveal_strlit("backup-all");
    assert("backup-all"@.len() == 10 && "backup-all"@[0] == 'b');
    reveal_strlit("shortcut-refresh");
    assert("shortcut-refresh"@.len() == 16 && "shortcut-refresh"@[0] == 's');
    reveal_strlit("open-settings");
    assert("open-settings"@.len() == 13 && "open-settings"@[0] == 'o');
    reveal_strlit("onboarding-choose-provider");
    assert("onboarding-choose-provider"@.len() == 26 && "onboarding-choose-provider"@[0] == 'o');
    reveal_strlit("continue-onboarding");
    assert("continue-onboarding"@.len() == 19 && "continue-onboarding"@[0] == 'c');
    reveal_strlit("previous-onboarding");
    assert("previous-onboarding"@.len() == 19 && "previous-onboarding"@[0] == 'p');
    reveal_strlit("save-project-metadata");
    assert("save-project-metadata"@.len() == 21 && "save-project-metadata"@[0] == 's');
    reveal_strlit("add-provider");
    assert("add-provider"@.len() == 12 && "add-provider"@[0] == 'a');
    reveal_strlit("automatic-backups");
    assert("automatic-backups"@.len() == 17 && "automatic-backups"@[0] == 'a');
    reveal_strlit("verify-uploads");
    assert("verify-uploads"@.len() == 14 && "verify-uploads"@[0] == 'v');
    reveal_strlit("add-path-alias");
    assert("add-path-alias"@.len() == 14 && "add-path-alias"@[0] == 'a');
    reveal_strlit("save-display-name");
    assert("save-display-name"@.len() == 17 && "save-display-name"@[0] == 's');
    reveal_strlit("close-provider-picker");
    assert("close-provider-picker"@.len() == 21 && "close-provider-picker"@[0] == 'c');
    reveal_strlit("add-local-provider");
    assert("add-local-provider"@.len() == 18 && "add-local-provider"@[0] == 'a');
    reveal_strlit("retry-provider-auth");
    assert("retry-provider-auth"@.len() == 19 && "retry-provider-auth"@[0] == 'r');
    reveal_strlit("cancel-provider-auth");
    assert("cancel-provider-auth"@.len() == 20 && "cancel-provider-auth"@[0] == 'c');
    assert forall|id: Seq<char>| #[trigger] is_conditional(id) implies is_conditional_shape(
        id.len(),
        id[0],
    ) by {
        conditional_names_have_shapes(id);
    }
}

proof fn conditional_buttons()
    ensures
        "refresh-provider-projects"@ != "onboarding-watch-folder"@,
        "refresh-provider-projects"@ != "watch-another-folder"@,
        "begin-provider-auth"@ != "onboarding-watch-folder"@,
        "begin-provider-auth"@ != "watch-another-folder"@,
        "begin-provider-auth"@ != "refresh-provider-projects"@,
        "open-provider-sign-in"@ != "onboarding-watch-folder"@,
        "open-provider-sign-in"@ != "watch-another-folder"@,
        "open-provider-sign-in"@ != "refresh-provider-projects"@,
        "open-provider-sign-in"@ != "begin-provider-auth"@,
        "finish-provider-auth"@ != "onboarding-watch-folder"@,
        "finish-provider-auth"@ != "watch-another-folder"@,
        "finish-provider-auth"@ != "refresh-provider-projects"@,
        "finish-provider-auth"@ != "begin-provider-auth"@,
        "finish-provider-auth"@ != "open-provider-sign-in"@,
{
    reveal_strlit("onboarding-watch-folder");
    reveal_strlit("watch-another-folder");
    reveal_strlit("refresh-provider-projects");
    reveal_strlit("begin-provider-auth");
    reveal_strlit("open-provider-sign-in");
    reveal_strlit("finish-provider-auth");
    assert("onboarding-watch-folder"@.len() == 23 && "onboarding-watch-folder"@[0] == 'o');
    assert("watch-another-folder"@.len() == 20 && "watch-another-folder"@[0] == 'w');
    assert("refresh-provider-projects"@.len() == 25 && "refresh-provider-projects"@[0] == 'r');
    assert("begin-provider-auth"@.len() == 19 && "begin-provider-auth"@[0] == 'b');
    assert("open-provider-sign-in"@.len() == 21 && "open-provider-sign-in"@[0] == 'o');
    assert("finish-provider-auth"@.len() == 20 && "finish-provider-auth"@[0] == 'f');
}

proof fn named_is_answered(manager: ProjectManager, id: Seq<char>)
    requires
        !is_conditional(id),
        forall|r: Result<ClickAction, String>| #[trigger] manager.answers_named(id, r) ==> r is Ok,
    ensures
        click_is_answered(manager, id),
{
}

proof fn providers_are_answered(manager: ProjectManager, prefix: Seq<char>, n: int)
    requires
        providers_are_apart(manager.providers@),
        prefix == "settings-provider-"@ || prefix == "catalog-provider-"@,
        0 <= n <= manager.providers@.len(),
    ensures
        all_are_answered(manager, provider_nodes(prefix, manager.providers@, n)),
    decreases n,
{
    click_actions_differ();
    if n > 0 {
        providers_are_answered(manager, prefix, n - 1);
        let provider = manager.providers@[n - 1];
        let id = prefix + provider.entry.id@;
        if !(provider.availability is Connected) {
            reveal_strlit("settings-provider-");
            reveal_strlit("catalog-provider-");
            reveal_strlit("project-primary-action-");
            reveal_strlit("project-");
            assert(id[0] == prefix[0]);
            assert(id[1] == prefix[1]);
            assert(id.subrange(0, prefix.len() as int) =~= prefix);
            assert(id.skip(prefix.len() as int) =~= provider.entry.id@);
            assert(!starts(id, "project-primary-action-"@)) by {
                if starts(id, "project-primary-action-"@) {
                    assert(id.subrange(0, "project-primary-action-"@.len() as int)[0] == id[0]);
                }
            }
            assert(!starts(id, "project-"@)) by {
                if starts(id, "project-"@) {
                    assert(id.subrange(0, "project-"@.len() as int)[0] == id[0]);
                }
            }
            if prefix == "catalog-provider-"@ {
                assert(!starts(id, "settings-provider-"@)) by {
                    if starts(id, "settings-provider-"@) {
                        assert(id.subrange(0, "settings-provider-"@.len() as int)[0] == id[0]);
                    }
                }
            }
            assert(!is_conditional(id)) by {
                if is_conditional(id) {
                    conditional_names_have_shapes(id);
                }
            }
            assert(is_provider(manager.providers@, provider.entry.id@, n - 1));
            named_is_answered(manager, id);
        }
    }
}

proof fn row_is_answered(manager: ProjectManager, at: int, entries: Entries)
    requires
        projects_are_apart(manager.projects@),
        0 <= at < manager.projects@.len(),
    ensures
        all_are_answered(manager, manager.row_nodes(at, entries)),
{
    click_actions_differ();
    plain_buttons();
    let identity = vstd::utf8::encode_utf8(manager.projects@[at].id@);
    let id = opaque_id("project"@, identity);
    let action = opaque_id("project-primary-action"@, identity);
    crate::inspection::identities_stay_hidden("project"@, identity);
    crate::inspection::identities_stay_hidden("project-primary-action"@, identity);
    reveal_strlit("project");
    reveal_strlit("project-");
    reveal_strlit("-");
    reveal_strlit("project-primary-action");
    reveal_strlit("project-primary-action-");
    assert(id[0] == 'p' && id[1] == 'r');
    assert(action[0] == 'p' && action[1] == 'r');
    assert(!is_conditional(id) && !is_conditional(action)) by {
        if is_conditional(id) {
            conditional_names_have_shapes(id);
        }
        if is_conditional(action) {
            conditional_names_have_shapes(action);
        }
    }
    assert(id.subrange(0, "project-"@.len() as int) =~= "project-"@);
    assert(starts(id, "project-"@));
    assert(!starts(id, "project-primary-action-"@)) by {
        if starts(id, "project-primary-action-"@) {
            assert(id.subrange(0, "project-primary-action-"@.len() as int)[8] == id[8]);
        }
    }
    assert(action.subrange(0, "project-primary-action-"@.len() as int)
        =~= "project-primary-action-"@);
    assert(starts(action, "project-primary-action-"@));
    assert(is_named(manager.projects@, "project"@, id, at));
    assert(is_named(manager.projects@, "project-primary-action"@, action, at));
    named_is_answered(manager, id);
    if !(manager.projects@[at].status.next_action() is Wait) {
        named_is_answered(manager, action);
    }
}

proof fn rows_are_answered(manager: ProjectManager, places: Seq<usize>, entries: Entries, n: int)
    requires
        projects_are_apart(manager.projects@),
        0 <= n <= places.len(),
        forall|i: int| 0 <= i < places.len() ==> (#[trigger] places[i]) < manager.projects@.len(),
    ensures
        all_are_answered(manager, manager.rows_nodes(places, entries, n)),
    decreases n,
{
    if n > 0 {
        rows_are_answered(manager, places, entries, n - 1);
        row_is_answered(manager, places[n - 1] as int, entries);
    }
}

proof fn visible_places_exist(
    projects: Seq<Project>,
    query: Seq<char>,
    genres: Seq<Seq<char>>,
    tags: Seq<Seq<char>>,
    bpm: Option<BpmFilter>,
    n: int,
)
    requires
        0 <= n <= projects.len() <= usize::MAX,
    ensures
        forall|i: int|
            0 <= i < passing(projects, query, genres, tags, bpm, n).len() ==> (#[trigger] passing(
                projects,
                query,
                genres,
                tags,
                bpm,
                n,
            )[i]) < n,
    decreases n,
{
    if n > 0 {
        visible_places_exist(projects, query, genres, tags, bpm, n - 1);
        let before = passing(projects, query, genres, tags, bpm, n - 1);
        let after = passing(projects, query, genres, tags, bpm, n);
        assert forall|i: int| 0 <= i < after.len() implies (#[trigger] after[i]) < n by {
            if i < before.len() {
                assert(after[i] == before[i]);
            }
        }
    }
}

proof fn answered_together(manager: ProjectManager, a: Seq<NodeView>, b: Seq<NodeView>)
    requires
        all_are_answered(manager, a),
        all_are_answered(manager, b),
    ensures
        all_are_answered(manager, a + b),
{
}

proof fn library_is_answered(manager: ProjectManager, entries: Entries)
    requires
        projects_are_apart(manager.projects@),
        manager.projects@.len() <= usize::MAX,
    ensures
        all_are_answered(manager, manager.library_nodes(entries)),
{
    let places = manager.visible(entries.query);
    visible_places_exist(
        manager.projects@,
        lowercase(entries.query.search@),
        views(entries.query.genres@),
        views(entries.query.tags@),
        manager.bpm_in_force(),
        manager.projects@.len() as int,
    );
    let n = if places.len() < PAGE {
        places.len() as int
    } else {
        PAGE as int
    };
    rows_are_answered(manager, places, entries, n);
    assert(all_are_answered(manager, manager.library_head(entries))) by {
        click_actions_differ();
        plain_buttons();
    }
    answered_together(
        manager,
        manager.library_head(entries),
        manager.rows_nodes(places, entries, n),
    );
}

proof fn onboarding_is_answered(manager: ProjectManager, entries: Entries)
    ensures
        all_are_answered(manager, manager.onboarding_nodes(entries)),
{
    click_actions_differ();
    plain_buttons();
}

proof fn settings_are_answered(manager: ProjectManager, entries: Entries)
    requires
        providers_are_apart(manager.providers@),
    ensures
        all_are_answered(manager, manager.settings_nodes(entries)),
{
    let all = manager.providers@.len() as int;
    providers_are_answered(manager, "settings-provider-"@, all);
    assert(all_are_answered(manager, manager.settings_head(entries))) by {
        click_actions_differ();
        plain_buttons();
        conditional_buttons();
    }
    answered_together(
        manager,
        manager.settings_head(entries),
        provider_nodes("settings-provider-"@, manager.providers@, all),
    );
}

proof fn overlay_is_answered(manager: ProjectManager, host: OverlayHost, entries: Entries)
    requires
        providers_are_apart(manager.providers@),
    ensures
        all_are_answered(manager, manager.overlay_nodes(host, entries)),
{
    click_actions_differ();
    plain_buttons();
    match manager.overlay.shown(host) {
        Some(Overlay::ProviderPicker) => {
            providers_are_answered(
                manager,
                "catalog-provider-"@,
                manager.providers@.len() as int,
            );
        },
        Some(Overlay::Authenticate { provider_index }) => {
            assert(all_are_answered(manager, manager.phase_nodes())) by {
                conditional_buttons();
            }
        },
        _ => {},
    }
}

/// Every button of the tree that can be clicked is answered when it is, where
/// no two projects share a name in the tree and no two providers an id.
pub proof fn every_button_is_answered(
    manager: ProjectManager,
    surface: Surface,
    entries: Entries,
    i: int,
)
    requires
        projects_are_apart(manager.projects@),
        providers_are_apart(manager.providers@),
        manager.projects@.len() <= usize::MAX,
        0 <= i < manager.tree(surface, entries).len(),
        manager.tree(surface, entries)[i].actions == NodeActions::Click.texts(),
    ensures
        click_is_answered(manager, manager.tree(surface, entries)[i].id),
{
    library_is_answered(manager, entries);
    onboarding_is_answered(manager, entries);
    settings_are_answered(manager, entries);
    overlay_is_answered(manager, ProjectManager::host_of(surface), entries);
}

} // verus!
