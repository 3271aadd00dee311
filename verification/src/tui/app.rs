//! The state of the front end, and the state machine that keys drive.
//! A key changes the state and may ask for one command; the front end
//! performs the command against the engine and hands back what it got.

use crate::domain::container::Container;
use crate::domain::container::ContainerDetail;
use crate::domain::container::ContainerDetailView;
use crate::domain::container::ContainerId;
use crate::domain::container::ContainerView;
use crate::domain::image::Image;
use crate::domain::image::ImageDetail;
use crate::domain::image::ImageDetailView;
use crate::domain::image::ImageId;
use crate::domain::image::ImageView;
use crate::domain::network::Network;
use crate::domain::network::NetworkDetail;
use crate::domain::network::NetworkDetailView;
use crate::domain::network::NetworkId;
use crate::domain::network::NetworkView;
use crate::domain::volume::Volume;
use crate::domain::volume::VolumeDetail;
use crate::domain::volume::VolumeDetailView;
use crate::domain::volume::VolumeName;
use crate::domain::volume::VolumeView;
use crate::tui::event::KeyCode;
use crate::tui::event::KeyEvent;
use crate::tui::modal::ConfirmDialog;
use crate::tui::modal::ConfirmDialogView;
use vstd::prelude::*;

verus! {

/// The tabs of the front end, in the order in which they are shown.
#[derive(Debug, Clone, Copy, PartialEq, Eq, Structural)]
pub enum Tab {
    Containers,
    Images,
    Volumes,
    Networks,
    System,
}

impl DeepView for Tab {
    type V = Tab;

    open spec fn deep_view(&self) -> Tab {
        *self
    }
}

impl Tab {
    /// The title of a tab.
    pub open spec fn title_text(self) -> Seq<char> {
        match self {
            Tab::Containers => "Containers"@,
            Tab::Images => "Images"@,
            Tab::Volumes => "Volumes"@,
            Tab::Networks => "Networks"@,
            Tab::System => "System"@,
        }
    }

    /// The place of a tab in the row of tabs, counted from zero.
    pub open spec fn position(self) -> int {
        match self {
            Tab::Containers => 0,
            Tab::Images => 1,
            Tab::Volumes => 2,
            Tab::Networks => 3,
            Tab::System => 4,
        }
    }

    /// The tabs in the order in which they are shown.
    pub open spec fn row() -> Seq<Tab> {
        seq![Tab::Containers, Tab::Images, Tab::Volumes, Tab::Networks, Tab::System]
    }

    /// The tab to the right of a tab; the first tab is to the right of the
    /// last.
    pub open spec fn right(self) -> Tab {
        match self {
            Tab::Containers => Tab::Images,
            Tab::Images => Tab::Volumes,
            Tab::Volumes => Tab::Networks,
            Tab::Networks => Tab::System,
            Tab::System => Tab::Containers,
        }
    }

    /// The tab to the left of a tab; the last tab is to the left of the
    /// first.
    pub open spec fn left(self) -> Tab {
        match self {
            Tab::Containers => Tab::System,
            Tab::Images => Tab::Containers,
            Tab::Volumes => Tab::Images,
            Tab::Networks => Tab::Volumes,
            Tab::System => Tab::Networks,
        }
    }

    /// The title of the tab.
    pub fn title(&self) -> (title: &'static str)
        ensures
            title@ == self.title_text(),
    {
        match self {
            Tab::Containers => "Containers",
            Tab::Images => "Images",
            Tab::Volumes => "Volumes",
            Tab::Networks => "Networks",
            Tab::System => "System",
        }
    }

    /// All tabs, in the order in which they are shown.
    pub fn all() -> (tabs: Vec<Tab>)
        ensures
            tabs@ == Tab::row(),
    {
        let mut tabs: Vec<Tab> = Vec::new();
        tabs.push(Tab::Containers);
        tabs.push(Tab::Images);
        tabs.push(Tab::Volumes);
        tabs.push(Tab::Networks);
        tabs.push(Tab::System);
        assert(tabs@ =~= Tab::row());
        tabs
    }

    /// The place of the tab in the row of tabs.
    pub fn index(&self) -> (at: usize)
        ensures
            at == self.position(),
            Tab::row()[at as int] == *self,
    {
        match self {
            Tab::Containers => 0,
            Tab::Images => 1,
            Tab::Volumes => 2,
            Tab::Networks => 3,
            Tab::System => 4,
        }
    }

    /// The tab to the right, around the end of the row.
    pub fn next(&self) -> (tab: Tab)
        ensures
            tab == self.right(),
    {
        match self {
            Tab::Containers => Tab::Images,
            Tab::Images => Tab::Volumes,
            Tab::Volumes => Tab::Networks,
            Tab::Networks => Tab::System,
            Tab::System => Tab::Containers,
        }
    }

    /// The tab to the left, around the start of the row.
    pub fn prev(&self) -> (tab: Tab)
        ensures
            tab == self.left(),
    {
        match self {
            Tab::Containers => Tab::System,
            Tab::Images => Tab::Containers,
            Tab::Volumes => Tab::Images,
            Tab::Networks => Tab::Volumes,
            Tab::System => Tab::Networks,
        }
    }
}

/// The tabs form a ring: the tab to the right is the next of the row,
/// the tab to the left the one before, both around the ends; going right
/// and then left, or left and then right, leads back.
pub proof fn lemma_tabs_cycle(tab: Tab)
    ensures
        Tab::row()[tab.position()] == tab,
        tab.right() == Tab::row()[(tab.position() + 1) % 5],
        tab.left() == Tab::row()[(tab.position() + 4) % 5],
        tab.right().left() == tab,
        tab.left().right() == tab,
        tab.right().right().right().right().right() == tab,
{
}

/// What a confirmed dialog does.
#[derive(Debug, Clone)]
pub enum ModalAction {
    DeleteContainer(ContainerId),
    DeleteImage(ImageId),
    DeleteVolume(VolumeName),
    DeleteNetwork(NetworkId),
}

/// What a [`ModalAction`] holds.
pub enum ModalActionView {
    DeleteContainer(Seq<char>),
    DeleteImage(Seq<char>),
    DeleteVolume(Seq<char>),
    DeleteNetwork(Seq<char>),
}

impl DeepView for ModalAction {
    type V = ModalActionView;

    open spec fn deep_view(&self) -> ModalActionView {
        match *self {
            ModalAction::DeleteContainer(id) => ModalActionView::DeleteContainer(id@),
            ModalAction::DeleteImage(id) => ModalActionView::DeleteImage(id@),
            ModalAction::DeleteVolume(name) => ModalActionView::DeleteVolume(name@),
            ModalAction::DeleteNetwork(id) => ModalActionView::DeleteNetwork(id@),
        }
    }
}

impl View for ModalAction {
    type V = ModalActionView;

    open spec fn view(&self) -> ModalActionView {
        self.deep_view()
    }
}

impl ModalActionView {
    /// The tab whose listing the action changes.
    pub open spec fn tab(self) -> Tab {
        match self {
            ModalActionView::DeleteContainer(_) => Tab::Containers,
            ModalActionView::DeleteImage(_) => Tab::Images,
            ModalActionView::DeleteVolume(_) => Tab::Volumes,
            ModalActionView::DeleteNetwork(_) => Tab::Networks,
        }
    }
}

/// What the front end is asked to do against the engine.
#[derive(Debug, Clone)]
pub enum Command {
    /// Nothing.
    Nothing,
    /// List the resources of a tab and hand the listing to the state.
    Refresh(Tab),
    /// Start a container, then refresh the containers.
    StartContainer(ContainerId),
    /// Stop a container with the daemon's own grace period, then refresh
    /// the containers.
    StopContainer(ContainerId),
    /// Restart a container with the daemon's own grace period, then refresh
    /// the containers.
    RestartContainer(ContainerId),
    /// Delete a resource, without force, then refresh its tab.
    Delete(ModalAction),
    /// Inspect a container and hand the detail to the state.
    InspectContainer(ContainerId),
    /// Inspect an image and hand the detail to the state.
    InspectImage(ImageId),
    /// Inspect a volume and hand the detail to the state.
    InspectVolume(VolumeName),
    /// Inspect a network and hand the detail to the state.
    InspectNetwork(NetworkId),
}

/// What a [`Command`] holds.
pub enum CommandView {
    Nothing,
    Refresh(Tab),
    StartContainer(Seq<char>),
    StopContainer(Seq<char>),
    RestartContainer(Seq<char>),
    Delete(ModalActionView),
    InspectContainer(Seq<char>),
    InspectImage(Seq<char>),
    InspectVolume(Seq<char>),
    InspectNetwork(Seq<char>),
}

impl DeepView for Command {
    type V = CommandView;

    open spec fn deep_view(&self) -> CommandView {
        match *self {
            Command::Nothing => CommandView::Nothing,
            Command::Refresh(tab) => CommandView::Refresh(tab),
            Command::StartContainer(id) => CommandView::StartContainer(id@),
            Command::StopContainer(id) => CommandView::StopContainer(id@),
            Command::RestartContainer(id) => CommandView::RestartContainer(id@),
            Command::Delete(action) => CommandView::Delete(action@),
            Command::InspectContainer(id) => CommandView::InspectContainer(id@),
            Command::InspectImage(id) => CommandView::InspectImage(id@),
            Command::InspectVolume(name) => CommandView::InspectVolume(name@),
            Command::InspectNetwork(id) => CommandView::InspectNetwork(id@),
        }
    }
}

impl View for Command {
    type V = CommandView;

    open spec fn view(&self) -> CommandView {
        self.deep_view()
    }
}

impl CommandView {
    /// The tab to refresh once the command is done, if any.
    pub open spec fn follow_up(self) -> Option<Tab> {
        match self {
            CommandView::StartContainer(_) => Some(Tab::Containers),
            CommandView::StopContainer(_) => Some(Tab::Containers),
            CommandView::RestartContainer(_) => Some(Tab::Containers),
            CommandView::Delete(action) => Some(action.tab()),
            _ => None,
        }
    }
}

impl Command {
    /// The tab to refresh once the command is done, if any: a command that
    /// changes a resource is followed by a fresh listing of its kind.
    pub fn then_refresh(&self) -> (tab: Option<Tab>)
        ensures
            tab == self@.follow_up(),
    {
        match self {
            Command::StartContainer(_) => Some(Tab::Containers),
            Command::StopContainer(_) => Some(Tab::Containers),
            Command::RestartContainer(_) => Some(Tab::Containers),
            Command::Delete(action) => match action {
                ModalAction::DeleteContainer(_) => Some(Tab::Containers),
                ModalAction::DeleteImage(_) => Some(Tab::Images),
                ModalAction::DeleteVolume(_) => Some(Tab::Volumes),
                ModalAction::DeleteNetwork(_) => Some(Tab::Networks),
            },
            _ => None,
        }
    }
}

/// The state of the front end.
#[derive(Debug, Clone)]
pub struct App {
    pub current_tab: Tab,
    pub containers: Vec<Container>,
    pub selected_container: usize,
    pub show_details: bool,
    pub container_detail: Option<ContainerDetail>,
    pub images: Vec<Image>,
    pub selected_image: usize,
    pub show_image_details: bool,
    pub image_detail: Option<ImageDetail>,
    pub volumes: Vec<Volume>,
    pub selected_volume: usize,
    pub show_volume_details: bool,
    pub volume_detail: Option<VolumeDetail>,
    pub networks: Vec<Network>,
    pub selected_network: usize,
    pub show_network_details: bool,
    pub network_detail: Option<NetworkDetail>,
    pub should_quit: bool,
    pub modal: Option<(ConfirmDialog, ModalAction)>,
    pub modal_selected: bool,
}

/// What an [`App`] holds.
pub struct AppView {
    pub current_tab: Tab,
    pub containers: Seq<ContainerView>,
    pub selected_container: usize,
    pub show_details: bool,
    pub container_detail: Option<ContainerDetailView>,
    pub images: Seq<ImageView>,
    pub selected_image: usize,
    pub show_image_details: bool,
    pub image_detail: Option<ImageDetailView>,
    pub volumes: Seq<VolumeView>,
    pub selected_volume: usize,
    pub show_volume_details: bool,
    pub volume_detail: Option<VolumeDetailView>,
    pub networks: Seq<NetworkView>,
    pub selected_network: usize,
    pub show_network_details: bool,
    pub network_detail: Option<NetworkDetailView>,
    pub should_quit: bool,
    pub modal: Option<(ConfirmDialogView, ModalActionView)>,
    pub modal_selected: bool,
}

impl DeepView for App {
    type V = AppView;

    open spec fn deep_view(&self) -> AppView {
        AppView {
            current_tab: self.current_tab,
            containers: self.containers.deep_view(),
            selected_container: self.selected_container,
            show_details: self.show_details,
            container_detail: self.container_detail.deep_view(),
            images: self.images.deep_view(),
            selected_image: self.selected_image,
            show_image_details: self.show_image_details,
            image_detail: self.image_detail.deep_view(),
            volumes: self.volumes.deep_view(),
            selected_volume: self.selected_volume,
            show_volume_details: self.show_volume_details,
            volume_detail: self.volume_detail.deep_view(),
            networks: self.networks.deep_view(),
            selected_network: self.selected_network,
            show_network_details: self.show_network_details,
            network_detail: self.network_detail.deep_view(),
            should_quit: self.should_quit,
            modal: self.modal.deep_view(),
            modal_selected: self.modal_selected,
        }
    }
}

impl View for App {
    type V = AppView;

    open spec fn view(&self) -> AppView {
        self.deep_view()
    }
}


/// The command that lists the resources of a tab; the last tab lists none.
pub open spec fn refresh_of(tab: Tab) -> CommandView {
    if tab == Tab::System {
        CommandView::Nothing
    } else {
        CommandView::Refresh(tab)
    }
}

/// The selection after a step down a list of `len` entries: the next
/// entry, and the first after the last. With no entry the selection stays.
pub open spec fn index_after(selected: usize, len: nat) -> usize {
    if len == 0 {
        selected
    } else {
        ((selected + 1) % (len as int)) as usize
    }
}

/// The selection after a step up a list of `len` entries: the entry
/// before, and the last before the first. With no entry the selection stays.
pub open spec fn index_before(selected: usize, len: nat) -> usize {
    if len == 0 {
        selected
    } else if selected == 0 {
        (len - 1) as usize
    } else {
        (selected - 1) as usize
    }
}

/// The selection once the list has `len` entries: the last entry where the
/// selection would lie beyond it, else the selection as it is.
pub open spec fn index_within(selected: usize, len: nat) -> usize {
    if selected >= len && len > 0 {
        (len - 1) as usize
    } else {
        selected
    }
}

/// A selection within a list stays within it: a step down or up leads to
/// an entry of the list, and so does taking a listing that has entries.
pub proof fn lemma_selection_stays_within(selected: usize, len: nat)
    requires
        0 < len <= usize::MAX,
    ensures
        index_after(selected, len) < len,
        selected < len ==> index_before(selected, len) < len,
        index_within(selected, len) < len,
        selected < len ==> index_within(selected, len) == selected,
        selected < len ==> index_before(index_after(selected, len), len) == selected,
        selected < len ==> index_after(index_before(selected, len), len) == selected,
{
    let n = len as int;
    assert(0 <= (selected + 1) % n < n);
    if selected < len {
        if selected + 1 < n {
            assert((selected + 1) % n == selected + 1) by (nonlinear_arith)
                requires
                    0 <= selected + 1 < n,
            ;
        } else {
            assert((selected + 1) % n == 0) by (nonlinear_arith)
                requires
                    selected + 1 == n,
                    n > 0,
            ;
        }
        if selected == 0 {
            assert(((n - 1) + 1) % n == 0) by (nonlinear_arith)
                requires
                    n > 0,
            ;
        } else {
            assert(((selected - 1) + 1) % n == selected) by (nonlinear_arith)
                requires
                    0 <= selected < n,
            ;
        }
    }
}

/// The dialog that asks whether to delete a resource. `opening` is the
/// question up to the name of the resource.
pub open spec fn delete_dialog(title: Seq<char>, opening: Seq<char>, name: Seq<char>)
    -> ConfirmDialogView {
    ConfirmDialogView {
        title,
        message: opening + name + "'?\n\nThis action cannot be undone."@,
        confirm_label: "Delete"@,
        cancel_label: "Cancel"@,
        dangerous: true,
    }
}

/// The name by which an image is called in a question: its first tag, or
/// its identifier where it has no tag.
pub open spec fn image_label(image: ImageView) -> Seq<char> {
    if image.repo_tags.len() > 0 {
        image.repo_tags[0]
    } else {
        image.id
    }
}

impl AppView {
    /// The state in which the front end starts.
    pub open spec fn initial() -> AppView {
        AppView {
            current_tab: Tab::Containers,
            containers: Seq::empty(),
            selected_container: 0,
            show_details: false,
            container_detail: None,
            images: Seq::empty(),
            selected_image: 0,
            show_image_details: false,
            image_detail: None,
            volumes: Seq::empty(),
            selected_volume: 0,
            show_volume_details: false,
            volume_detail: None,
            networks: Seq::empty(),
            selected_network: 0,
            show_network_details: false,
            network_detail: None,
            should_quit: false,
            modal: None,
            modal_selected: false,
        }
    }

    /// The state with a fresh listing of containers.
    pub open spec fn with_containers(self, listed: Seq<ContainerView>) -> AppView {
        AppView {
            containers: listed,
            selected_container: index_within(self.selected_container, listed.len()),
            ..self
        }
    }

    /// The state with a fresh listing of images.
    pub open spec fn with_images(self, listed: Seq<ImageView>) -> AppView {
        AppView {
            images: listed,
            selected_image: index_within(self.selected_image, listed.len()),
            ..self
        }
    }

    /// The state with a fresh listing of volumes.
    pub open spec fn with_volumes(self, listed: Seq<VolumeView>) -> AppView {
        AppView {
            volumes: listed,
            selected_volume: index_within(self.selected_volume, listed.len()),
            ..self
        }
    }

    /// The state with a fresh listing of networks.
    pub open spec fn with_networks(self, listed: Seq<NetworkView>) -> AppView {
        AppView {
            networks: listed,
            selected_network: index_within(self.selected_network, listed.len()),
            ..self
        }
    }

    /// The state after a step down the list of the current tab.
    pub open spec fn selecting_next(self) -> AppView {
        match self.current_tab {
            Tab::Containers => AppView {
                selected_container: index_after(self.selected_container, self.containers.len()),
                ..self
            },
            Tab::Images => AppView {
                selected_image: index_after(self.selected_image, self.images.len()),
                ..self
            },
            Tab::Volumes => AppView {
                selected_volume: index_after(self.selected_volume, self.volumes.len()),
                ..self
            },
            Tab::Networks => AppView {
                selected_network: index_after(self.selected_network, self.networks.len()),
                ..self
            },
            Tab::System => self,
        }
    }

    /// The state after a step up the list of the current tab.
    pub open spec fn selecting_prev(self) -> AppView {
        match self.current_tab {
            Tab::Containers => AppView {
                selected_container: index_before(self.selected_container, self.containers.len()),
                ..self
            },
            Tab::Images => AppView {
                selected_image: index_before(self.selected_image, self.images.len()),
                ..self
            },
            Tab::Volumes => AppView {
                selected_volume: index_before(self.selected_volume, self.volumes.len()),
                ..self
            },
            Tab::Networks => AppView {
                selected_network: index_before(self.selected_network, self.networks.len()),
                ..self
            },
            Tab::System => self,
        }
    }

    /// The identifier of the selected container, where the selection lies
    /// within the list.
    pub open spec fn selected_container_id(self) -> Option<Seq<char>> {
        if self.selected_container < self.containers.len() {
            Some(self.containers[self.selected_container as int].id)
        } else {
            None
        }
    }

    /// The dialog and the action that deleting the selected resource of the
    /// current tab comes to, where the selection lies within the list.
    pub open spec fn deletion(self) -> Option<(ConfirmDialogView, ModalActionView)> {
        match self.current_tab {
            Tab::Containers => if self.selected_container < self.containers.len() {
                let chosen = self.containers[self.selected_container as int];
                Some(
                    (
                        delete_dialog(
                            "Delete Container"@,
                            "Are you sure you want to delete container '"@,
                            chosen.name,
                        ),
                        ModalActionView::DeleteContainer(chosen.id),
                    ),
                )
            } else {
                None
            },
            Tab::Images => if self.selected_image < self.images.len() {
                let chosen = self.images[self.selected_image as int];
                Some(
                    (
                        delete_dialog(
                            "Delete Image"@,
                            "Are you sure you want to delete image '"@,
                            image_label(chosen),
                        ),
                        ModalActionView::DeleteImage(chosen.id),
                    ),
                )
            } else {
                None
            },
            Tab::Volumes => if self.selected_volume < self.volumes.len() {
                let chosen = self.volumes[self.selected_volume as int];
                Some(
                    (
                        delete_dialog(
                            "Delete Volume"@,
                            "Are you sure you want to delete volume '"@,
                            chosen.name,
                        ),
                        ModalActionView::DeleteVolume(chosen.name),
                    ),
                )
            } else {
                None
            },
            Tab::Networks => if self.selected_network < self.networks.len() {
                let chosen = self.networks[self.selected_network as int];
                Some(
                    (
                        delete_dialog(
                            "Delete Network"@,
                            "Are you sure you want to delete network '"@,
                            chosen.name,
                        ),
                        ModalActionView::DeleteNetwork(chosen.id),
                    ),
                )
            } else {
                None
            },
            Tab::System => None,
        }
    }

    /// The state after asking to delete the selected resource: the dialog
    /// is open with "cancel" selected, where there is something to delete.
    pub open spec fn asking_to_delete(self) -> AppView {
        match self.deletion() {
            Some(asked) => AppView { modal: Some(asked), modal_selected: false, ..self },
            None => self,
        }
    }

    /// The command that acts on the selected container, where the selection
    /// lies within the list.
    pub open spec fn on_selected_container(
        self,
        act: spec_fn(Seq<char>) -> CommandView,
    ) -> CommandView {
        match self.selected_container_id() {
            Some(id) => act(id),
            None => CommandView::Nothing,
        }
    }

    /// The state and the command after toggling the details of the current
    /// tab: open details close; closed ones are asked for, for the selected
    /// resource.
    pub open spec fn toggling_details(self) -> (AppView, CommandView) {
        match self.current_tab {
            Tab::Containers => if self.show_details {
                (AppView { show_details: false, container_detail: None, ..self }, CommandView::Nothing)
            } else if self.selected_container < self.containers.len() {
                (
                    self,
                    CommandView::InspectContainer(
                        self.containers[self.selected_container as int].id,
                    ),
                )
            } else {
                (self, CommandView::Nothing)
            },
            Tab::Images => if self.show_image_details {
                (
                    AppView { show_image_details: false, image_detail: None, ..self },
                    CommandView::Nothing,
                )
            } else if self.selected_image < self.images.len() {
                (self, CommandView::InspectImage(self.images[self.selected_image as int].id))
            } else {
                (self, CommandView::Nothing)
            },
            Tab::Volumes => if self.show_volume_details {
                (
                    AppView { show_volume_details: false, volume_detail: None, ..self },
                    CommandView::Nothing,
                )
            } else if self.selected_volume < self.volumes.len() {
                (self, CommandView::InspectVolume(self.volumes[self.selected_volume as int].name))
            } else {
                (self, CommandView::Nothing)
            },
            Tab::Networks => if self.show_network_details {
                (
                    AppView { show_network_details: false, network_detail: None, ..self },
                    CommandView::Nothing,
                )
            } else if self.selected_network < self.networks.len() {
                (self, CommandView::InspectNetwork(self.networks[self.selected_network as int].id))
            } else {
                (self, CommandView::Nothing)
            },
            Tab::System => (self, CommandView::Nothing),
        }
    }

    /// The state and the command after confirming the dialog: the dialog
    /// closes and its action is asked for.
    pub open spec fn confirming(self) -> (AppView, CommandView) {
        match self.modal {
            Some(asked) => (AppView { modal: None, ..self }, CommandView::Delete(asked.1)),
            None => (self, CommandView::Nothing),
        }
    }

    /// The state and the command after a key while the dialog is open.
    pub open spec fn after_modal_key(self, key: KeyEvent) -> (AppView, CommandView) {
        let code = key.code;
        if code == KeyCode::Left || code == KeyCode::Char('h') {
            (AppView { modal_selected: false, ..self }, CommandView::Nothing)
        } else if code == KeyCode::Right || code == KeyCode::Char('l') {
            (AppView { modal_selected: true, ..self }, CommandView::Nothing)
        } else if code == KeyCode::Tab {
            (AppView { modal_selected: !self.modal_selected, ..self }, CommandView::Nothing)
        } else if (code == KeyCode::Enter || code == KeyCode::Char('y')) && self.modal_selected {
            self.confirming()
        } else if code == KeyCode::Esc || code == KeyCode::Char('n') || code == KeyCode::Char('q') {
            (AppView { modal: None, ..self }, CommandView::Nothing)
        } else {
            (self, CommandView::Nothing)
        }
    }

    /// The state and the command after moving to a tab.
    pub open spec fn moving_to(self, tab: Tab) -> (AppView, CommandView) {
        (AppView { current_tab: tab, ..self }, refresh_of(tab))
    }

    /// The state and the command after a key while no dialog is open.
    pub open spec fn after_plain_key(self, key: KeyEvent) -> (AppView, CommandView) {
        let code = key.code;
        if code == KeyCode::Char('q') || (code == KeyCode::Char('c') && key.control) {
            (AppView { should_quit: true, ..self }, CommandView::Nothing)
        } else if code == KeyCode::Tab {
            self.moving_to(self.current_tab.right())
        } else if code == KeyCode::BackTab {
            self.moving_to(self.current_tab.left())
        } else if code == KeyCode::Char('1') {
            self.moving_to(Tab::Containers)
        } else if code == KeyCode::Char('2') {
            self.moving_to(Tab::Images)
        } else if code == KeyCode::Char('3') {
            self.moving_to(Tab::Volumes)
        } else if code == KeyCode::Char('4') {
            self.moving_to(Tab::Networks)
        } else if code == KeyCode::Char('5') {
            self.moving_to(Tab::System)
        } else if code == KeyCode::Char('r') || code == KeyCode::Char('R') {
            (self, refresh_of(self.current_tab))
        } else if code == KeyCode::Down || code == KeyCode::Char('j') {
            (self.selecting_next(), CommandView::Nothing)
        } else if code == KeyCode::Up || code == KeyCode::Char('k') {
            (self.selecting_prev(), CommandView::Nothing)
        } else if code == KeyCode::Char('s') {
            if self.current_tab == Tab::Containers {
                (self, self.on_selected_container(|id: Seq<char>| CommandView::StartContainer(id)))
            } else {
                (self, CommandView::Nothing)
            }
        } else if code == KeyCode::Char('t') {
            if self.current_tab == Tab::Containers {
                (self, self.on_selected_container(|id: Seq<char>| CommandView::StopContainer(id)))
            } else {
                (self, CommandView::Nothing)
            }
        } else if code == KeyCode::Char('d') {
            (self.asking_to_delete(), CommandView::Nothing)
        } else if code == KeyCode::Char('x') {
            if self.current_tab == Tab::Containers {
                (
                    self,
                    self.on_selected_container(|id: Seq<char>| CommandView::RestartContainer(id)),
                )
            } else {
                (self, CommandView::Nothing)
            }
        } else if code == KeyCode::Enter || code == KeyCode::Char('i') {
            self.toggling_details()
        } else {
            (self, CommandView::Nothing)
        }
    }

    /// The line of help for the state: the keys of the dialog while it is
    /// open, else the keys of the current tab, with "close details" in
    /// place of "details" while details are open.
    pub open spec fn help(self) -> Seq<char> {
        if self.modal is Some {
            "←→/hl: select | Enter/y: confirm | Esc/n/q: cancel"@
        } else {
            match self.current_tab {
                Tab::Containers => if self.show_details {
                    "q: quit | r: refresh | ↑↓/jk: navigate | Enter/i: close details | s: start | t: stop | x: restart | d: delete"@
                } else {
                    "q: quit | r: refresh | ↑↓/jk: navigate | Enter/i: details | s: start | t: stop | x: restart | d: delete | 1-5: tabs"@
                },
                Tab::System => "q: quit | r: refresh | 1-5: switch tabs"@,
                _ => if self.show_image_details || self.show_volume_details
                    || self.show_network_details {
                    "q: quit | r: refresh | ↑↓/jk: navigate | Enter/i: close details | d: delete | 1-5: tabs"@
                } else {
                    "q: quit | r: refresh | ↑↓/jk: navigate | Enter/i: details | d: delete | 1-5: tabs"@
                },
            }
        }
    }

    /// The state and the command after a key: while the dialog is open the
    /// key goes to the dialog, else to the tabs and lists.
    pub open spec fn after_key(self, key: KeyEvent) -> (AppView, CommandView) {
        if self.modal is Some {
            self.after_modal_key(key)
        } else {
            self.after_plain_key(key)
        }
    }
}

/// The selection after a step down a list of `len` entries.
fn step_down(selected: usize, len: usize) -> (next: usize)
    ensures
        next == index_after(selected, len as nat),
{
    if len == 0 {
        selected
    } else {
        let within = selected % len;
        assert((selected + 1) % (len as int) == if within + 1 == len {
            0
        } else {
            within + 1
        }) by (nonlinear_arith)
            requires
                len > 0,
                within == selected % len,
        ;
        if within + 1 == len {
            0
        } else {
            within + 1
        }
    }
}

/// The selection after a step up a list of `len` entries.
fn step_up(selected: usize, len: usize) -> (next: usize)
    ensures
        next == index_before(selected, len as nat),
{
    if len == 0 {
        selected
    } else if selected == 0 {
        len - 1
    } else {
        selected - 1
    }
}

/// The selection once the list has `len` entries.
fn keep_within(selected: usize, len: usize) -> (kept: usize)
    ensures
        kept == index_within(selected, len as nat),
{
    if selected >= len && len > 0 {
        len - 1
    } else {
        selected
    }
}

/// The dialog that asks whether to delete the resource called `name`.
fn delete_dialog_for(title: &str, opening: &str, name: &str) -> (dialog: ConfirmDialog)
    ensures
        dialog@ == delete_dialog(title@, opening@, name@),
{
    let mut message = opening.to_owned();
    message.append(name);
    message.append("'?\n\nThis action cannot be undone.");
    ConfirmDialog::new(title, message.as_str()).dangerous().with_labels("Delete", "Cancel")
}

impl App {
    /// The state in which the front end starts, and the command that loads
    /// the first listing.
    pub fn new() -> (start: (App, Command))
        ensures
            start.0@ == AppView::initial(),
            start.1@ == CommandView::Refresh(Tab::Containers),
    {
        let app = App {
            current_tab: Tab::Containers,
            containers: Vec::new(),
            selected_container: 0,
            show_details: false,
            container_detail: None,
            images: Vec::new(),
            selected_image: 0,
            show_image_details: false,
            image_detail: None,
            volumes: Vec::new(),
            selected_volume: 0,
            show_volume_details: false,
            volume_detail: None,
            networks: Vec::new(),
            selected_network: 0,
            show_network_details: false,
            network_detail: None,
            should_quit: false,
            modal: None,
            modal_selected: false,
        };
        assert(app.containers.deep_view() =~= Seq::<ContainerView>::empty());
        assert(app.images.deep_view() =~= Seq::<ImageView>::empty());
        assert(app.volumes.deep_view() =~= Seq::<VolumeView>::empty());
        assert(app.networks.deep_view() =~= Seq::<NetworkView>::empty());
        (app, Command::Refresh(Tab::Containers))
    }

    /// What a key does: the state changes as the key says, and the command
    /// that it asks for, if any, is handed out.
    pub fn handle_key(&mut self, key: KeyEvent) -> (command: Command)
        ensures
            (final(self)@, command@) == old(self)@.after_key(key),
    {
        if self.modal.is_some() {
            self.handle_modal_key(key)
        } else {
            self.handle_plain_key(key)
        }
    }

    /// What a key does while the dialog is open.
    fn handle_modal_key(&mut self, key: KeyEvent) -> (command: Command)
        ensures
            (final(self)@, command@) == old(self)@.after_modal_key(key),
    {
        let code = key.code;
        if code == KeyCode::Left || code == KeyCode::Char('h') {
            self.modal_selected = false;
            Command::Nothing
        } else if code == KeyCode::Right || code == KeyCode::Char('l') {
            self.modal_selected = true;
            Command::Nothing
        } else if code == KeyCode::Tab {
            self.modal_selected = !self.modal_selected;
            Command::Nothing
        } else if (code == KeyCode::Enter || code == KeyCode::Char('y')) && self.modal_selected {
            self.confirm_modal_action()
        } else if code == KeyCode::Esc || code == KeyCode::Char('n') || code == KeyCode::Char('q') {
            self.modal = None;
            Command::Nothing
        } else {
            Command::Nothing
        }
    }

    /// Moves to a tab and asks for its listing.
    fn move_to(&mut self, tab: Tab) -> (command: Command)
        ensures
            (final(self)@, command@) == old(self)@.moving_to(tab),
    {
        self.current_tab = tab;
        self.refresh_current_tab()
    }

    /// What a key does while no dialog is open.
    fn handle_plain_key(&mut self, key: KeyEvent) -> (command: Command)
        ensures
            (final(self)@, command@) == old(self)@.after_plain_key(key),
    {
        let code = key.code;
        if code == KeyCode::Char('q') || (code == KeyCode::Char('c') && key.control) {
            self.should_quit = true;
            Command::Nothing
        } else if code == KeyCode::Tab {
            let tab = self.current_tab.next();
            self.move_to(tab)
        } else if code == KeyCode::BackTab {
            let tab = self.current_tab.prev();
            self.move_to(tab)
        } else if code == KeyCode::Char('1') {
            self.move_to(Tab::Containers)
        } else if code == KeyCode::Char('2') {
            self.move_to(Tab::Images)
        } else if code == KeyCode::Char('3') {
            self.move_to(Tab::Volumes)
        } else if code == KeyCode::Char('4') {
            self.move_to(Tab::Networks)
        } else if code == KeyCode::Char('5') {
            self.move_to(Tab::System)
        } else if code == KeyCode::Char('r') || code == KeyCode::Char('R') {
            self.refresh_current_tab()
        } else if code == KeyCode::Down || code == KeyCode::Char('j') {
            self.select_next();
            Command::Nothing
        } else if code == KeyCode::Up || code == KeyCode::Char('k') {
            self.select_prev();
            Command::Nothing
        } else if code == KeyCode::Char('s') {
            if self.current_tab == Tab::Containers {
                self.start_selected_container()
            } else {
                Command::Nothing
            }
        } else if code == KeyCode::Char('t') {
            if self.current_tab == Tab::Containers {
                self.stop_selected_container()
            } else {
                Command::Nothing
            }
        } else if code == KeyCode::Char('d') {
            self.show_delete_confirmation();
            Command::Nothing
        } else if code == KeyCode::Char('x') {
            if self.current_tab == Tab::Containers {
                self.restart_selected_container()
            } else {
                Command::Nothing
            }
        } else if code == KeyCode::Enter || code == KeyCode::Char('i') {
            self.toggle_details()
        } else {
            Command::Nothing
        }
    }

    /// What the passing of a tick does: nothing.
    pub fn tick(&mut self)
        ensures
            *final(self) == *old(self),
    {
    }

    /// The command that lists the resources of the current tab.
    pub fn refresh_current_tab(&self) -> (command: Command)
        ensures
            command@ == refresh_of(self.current_tab),
    {
        match self.current_tab {
            Tab::System => Command::Nothing,
            tab => Command::Refresh(tab),
        }
    }

    /// Takes a fresh listing of containers. A selection beyond the end of
    /// the listing moves to its last entry.
    pub fn refresh_containers(&mut self, listed: Vec<Container>)
        ensures
            final(self)@ == old(self)@.with_containers(listed.deep_view()),
    {
        self.selected_container = keep_within(self.selected_container, listed.len());
        self.containers = listed;
    }

    /// Takes a fresh listing of images.
    pub fn refresh_images(&mut self, listed: Vec<Image>)
        ensures
            final(self)@ == old(self)@.with_images(listed.deep_view()),
    {
        self.selected_image = keep_within(self.selected_image, listed.len());
        self.images = listed;
    }

    /// Takes a fresh listing of volumes.
    pub fn refresh_volumes(&mut self, listed: Vec<Volume>)
        ensures
            final(self)@ == old(self)@.with_volumes(listed.deep_view()),
    {
        self.selected_volume = keep_within(self.selected_volume, listed.len());
        self.volumes = listed;
    }

    /// Takes a fresh listing of networks.
    pub fn refresh_networks(&mut self, listed: Vec<Network>)
        ensures
            final(self)@ == old(self)@.with_networks(listed.deep_view()),
    {
        self.selected_network = keep_within(self.selected_network, listed.len());
        self.networks = listed;
    }

    /// Takes the detail of the inspected container and shows it.
    pub fn show_container_detail(&mut self, detail: ContainerDetail)
        ensures
            final(self)@ == (AppView {
                container_detail: Some(detail@),
                show_details: true,
                ..old(self)@
            }),
    {
        self.container_detail = Some(detail);
        self.show_details = true;
    }

    /// Takes the detail of the inspected image and shows it.
    pub fn show_image_detail(&mut self, detail: ImageDetail)
        ensures
            final(self)@ == (AppView {
                image_detail: Some(detail@),
                show_image_details: true,
                ..old(self)@
            }),
    {
        self.image_detail = Some(detail);
        self.show_image_details = true;
    }

    /// Takes the detail of the inspected volume and shows it.
    pub fn show_volume_detail(&mut self, detail: VolumeDetail)
        ensures
            final(self)@ == (AppView {
                volume_detail: Some(detail@),
                show_volume_details: true,
                ..old(self)@
            }),
    {
        self.volume_detail = Some(detail);
        self.show_volume_details = true;
    }

    /// Takes the detail of the inspected network and shows it.
    pub fn show_network_detail(&mut self, detail: NetworkDetail)
        ensures
            final(self)@ == (AppView {
                network_detail: Some(detail@),
                show_network_details: true,
                ..old(self)@
            }),
    {
        self.network_detail = Some(detail);
        self.show_network_details = true;
    }

    /// Moves the selection of the current tab one entry down, around the
    /// end of the list.
    pub fn select_next(&mut self)
        ensures
            final(self)@ == old(self)@.selecting_next(),
    {
        match self.current_tab {
            Tab::Containers => {
                self.selected_container = step_down(self.selected_container, self.containers.len());
            },
            Tab::Images => {
                self.selected_image = step_down(self.selected_image, self.images.len());
            },
            Tab::Volumes => {
                self.selected_volume = step_down(self.selected_volume, self.volumes.len());
            },
            Tab::Networks => {
                self.selected_network = step_down(self.selected_network, self.networks.len());
            },
            Tab::System => {},
        }
    }

    /// Moves the selection of the current tab one entry up, around the
    /// start of the list.
    pub fn select_prev(&mut self)
        ensures
            final(self)@ == old(self)@.selecting_prev(),
    {
        match self.current_tab {
            Tab::Containers => {
                self.selected_container = step_up(self.selected_container, self.containers.len());
            },
            Tab::Images => {
                self.selected_image = step_up(self.selected_image, self.images.len());
            },
            Tab::Volumes => {
                self.selected_volume = step_up(self.selected_volume, self.volumes.len());
            },
            Tab::Networks => {
                self.selected_network = step_up(self.selected_network, self.networks.len());
            },
            Tab::System => {},
        }
    }

    /// The identifier of the selected container, where the selection lies
    /// within the list.
    fn selected_container_id(&self) -> (id: Option<ContainerId>)
        ensures
            id.deep_view() == self@.selected_container_id(),
    {
        if self.selected_container < self.containers.len() {
            Some(ContainerId(self.containers[self.selected_container].id.0.clone()))
        } else {
            None
        }
    }

    /// The command that starts the selected container.
    pub fn start_selected_container(&self) -> (command: Command)
        ensures
            command@ == self@.on_selected_container(
                |id: Seq<char>| CommandView::StartContainer(id),
            ),
    {
        match self.selected_container_id() {
            Some(id) => Command::StartContainer(id),
            None => Command::Nothing,
        }
    }

    /// The command that stops the selected container.
    pub fn stop_selected_container(&self) -> (command: Command)
        ensures
            command@ == self@.on_selected_container(
                |id: Seq<char>| CommandView::StopContainer(id),
            ),
    {
        match self.selected_container_id() {
            Some(id) => Command::StopContainer(id),
            None => Command::Nothing,
        }
    }

    /// The command that restarts the selected container.
    pub fn restart_selected_container(&self) -> (command: Command)
        ensures
            command@ == self@.on_selected_container(
                |id: Seq<char>| CommandView::RestartContainer(id),
            ),
    {
        match self.selected_container_id() {
            Some(id) => Command::RestartContainer(id),
            None => Command::Nothing,
        }
    }

    /// Opens the dialog that asks whether to delete the selected resource
    /// of the current tab, with "cancel" selected.
    pub fn show_delete_confirmation(&mut self)
        ensures
            final(self)@ == old(self)@.asking_to_delete(),
    {
        match self.current_tab {
            Tab::Containers => {
                if self.selected_container < self.containers.len() {
                    let chosen = &self.containers[self.selected_container];
                    let dialog = delete_dialog_for(
                        "Delete Container",
                        "Are you sure you want to delete container '",
                        chosen.name.as_str(),
                    );
                    let action = ModalAction::DeleteContainer(ContainerId(chosen.id.0.clone()));
                    self.modal = Some((dialog, action));
                    self.modal_selected = false;
                }
            },
            Tab::Images => {
                if self.selected_image < self.images.len() {
                    let chosen = &self.images[self.selected_image];
                    let dialog = if chosen.repo_tags.len() > 0 {
                        delete_dialog_for(
                            "Delete Image",
                            "Are you sure you want to delete image '",
                            chosen.repo_tags[0].as_str(),
                        )
                    } else {
                        delete_dialog_for(
                            "Delete Image",
                            "Are you sure you want to delete image '",
                            chosen.id.as_ref(),
                        )
                    };
                    let action = ModalAction::DeleteImage(ImageId(chosen.id.0.clone()));
                    self.modal = Some((dialog, action));
                    self.modal_selected = false;
                }
            },
            Tab::Volumes => {
                if self.selected_volume < self.volumes.len() {
                    let chosen = &self.volumes[self.selected_volume];
                    let dialog = delete_dialog_for(
                        "Delete Volume",
                        "Are you sure you want to delete volume '",
                        chosen.name.as_ref(),
                    );
                    let action = ModalAction::DeleteVolume(VolumeName(chosen.name.0.clone()));
                    self.modal = Some((dialog, action));
                    self.modal_selected = false;
                }
            },
            Tab::Networks => {
                if self.selected_network < self.networks.len() {
                    let chosen = &self.networks[self.selected_network];
                    let dialog = delete_dialog_for(
                        "Delete Network",
                        "Are you sure you want to delete network '",
                        chosen.name.as_str(),
                    );
                    let action = ModalAction::DeleteNetwork(NetworkId(chosen.id.0.clone()));
                    self.modal = Some((dialog, action));
                    self.modal_selected = false;
                }
            },
            Tab::System => {},
        }
    }

    /// Closes the dialog and hands out the command that its action asks
    /// for.
    pub fn confirm_modal_action(&mut self) -> (command: Command)
        ensures
            (final(self)@, command@) == old(self)@.confirming(),
    {
        match self.modal.take() {
            Some(asked) => Command::Delete(asked.1),
            None => Command::Nothing,
        }
    }

    /// The open dialog and its action, if a dialog is open.
    pub fn get_modal(&self) -> (modal: Option<&(ConfirmDialog, ModalAction)>)
        ensures
            modal.deep_view() == self@.modal,
    {
        self.modal.as_ref()
    }

    /// The line of help for the state.
    pub fn help_text(&self) -> (help: &'static str)
        ensures
            help@ == self@.help(),
    {
        if self.modal.is_some() {
            "←→/hl: select | Enter/y: confirm | Esc/n/q: cancel"
        } else {
            match self.current_tab {
                Tab::Containers => {
                    if self.show_details {
                        "q: quit | r: refresh | ↑↓/jk: navigate | Enter/i: close details | s: start | t: stop | x: restart | d: delete"
                    } else {
                        "q: quit | r: refresh | ↑↓/jk: navigate | Enter/i: details | s: start | t: stop | x: restart | d: delete | 1-5: tabs"
                    }
                },
                Tab::System => "q: quit | r: refresh | 1-5: switch tabs",
                _ => {
                    if self.show_image_details || self.show_volume_details
                        || self.show_network_details {
                        "q: quit | r: refresh | ↑↓/jk: navigate | Enter/i: close details | d: delete | 1-5: tabs"
                    } else {
                        "q: quit | r: refresh | ↑↓/jk: navigate | Enter/i: details | d: delete | 1-5: tabs"
                    }
                },
            }
        }
    }

    /// Whether "confirm" is the selected answer of the dialog.
    pub fn is_modal_confirm_selected(&self) -> (selected: bool)
        ensures
            selected == self.modal_selected,
    {
        self.modal_selected
    }

    /// Closes the details of the current tab where they are open; asks for
    /// the details of the selected resource where they are closed.
    pub fn toggle_details(&mut self) -> (command: Command)
        ensures
            (final(self)@, command@) == old(self)@.toggling_details(),
    {
        match self.current_tab {
            Tab::Containers => {
                if self.show_details {
                    self.show_details = false;
                    self.container_detail = None;
                    Command::Nothing
                } else if self.selected_container < self.containers.len() {
                    Command::InspectContainer(
                        ContainerId(self.containers[self.selected_container].id.0.clone()),
                    )
                } else {
                    Command::Nothing
                }
            },
            Tab::Images => {
                if self.show_image_details {
                    self.show_image_details = false;
                    self.image_detail = None;
                    Command::Nothing
                } else if self.selected_image < self.images.len() {
                    Command::InspectImage(ImageId(self.images[self.selected_image].id.0.clone()))
                } else {
                    Command::Nothing
                }
            },
            Tab::Volumes => {
                if self.show_volume_details {
                    self.show_volume_details = false;
                    self.volume_detail = None;
                    Command::Nothing
                } else if self.selected_volume < self.volumes.len() {
                    Command::InspectVolume(
                        VolumeName(self.volumes[self.selected_volume].name.0.clone()),
                    )
                } else {
                    Command::Nothing
                }
            },
            Tab::Networks => {
                if self.show_network_details {
                    self.show_network_details = false;
                    self.network_detail = None;
                    Command::Nothing
                } else if self.selected_network < self.networks.len() {
                    Command::InspectNetwork(
                        NetworkId(self.networks[self.selected_network].id.0.clone()),
                    )
                } else {
                    Command::Nothing
                }
            },
            Tab::System => Command::Nothing,
        }
    }
}

} // verus!
