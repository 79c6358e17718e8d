//! The scene editor's session: what its window does with each thing the
//! user does to it.
//!
//! The host draws the window and reports edits and clicks one at a time; the
//! session answers with the request to send on, if any.

use crate::spawning::{GameObject, Transform};
use vstd::prelude::*;

verus! {

/// The session as plain values.
pub struct SceneEditorModel {
    pub active: bool,
    pub save_name: Seq<char>,
    pub spawn_name: Seq<char>,
    pub parent_name: Seq<char>,
    pub parenting_name: Seq<char>,
    pub parenting_parent_name: Seq<char>,
}

/// A text field of the window.
#[derive(Clone, Copy, Debug, PartialEq, Eq, Structural)]
pub enum EditorField {
    SaveName,
    ParentingName,
    ParentingParentName,
    SpawnName,
    ParentName,
}

/// A button of the window. There is one spawn button for each kind of
/// object.
#[derive(Clone, Copy, Debug, PartialEq, Eq, Structural)]
pub enum EditorClick {
    Save,
    Load,
    SetParent,
    Spawn(GameObject),
}

/// What a request says, as plain values.
pub enum EditorRequestModel {
    Save { filename: Seq<char> },
    Load { filename: Seq<char> },
    ParentChange { name: Seq<char>, new_parent: Seq<char> },
    Spawn { object: GameObject, name: Option<Seq<char>>, parent: Option<Seq<char>> },
}

/// The text that a name holds, or `None` for no name.
pub open spec fn text_of(name: Option<String>) -> Option<Seq<char>> {
    match name {
        Some(name) => Some(name@),
        None => None,
    }
}

/// The name that a text field gives: none when the field is empty.
pub open spec fn name_in(field: Seq<char>) -> Option<Seq<char>> {
    if field.len() == 0 {
        None
    } else {
        Some(field)
    }
}

impl SceneEditorModel {
    /// The session before anything was done to it: closed, saving to "demo",
    /// every other field empty.
    pub open spec fn initial() -> SceneEditorModel {
        SceneEditorModel {
            active: false,
            save_name: "demo"@,
            spawn_name: Seq::empty(),
            parent_name: Seq::empty(),
            parenting_name: Seq::empty(),
            parenting_parent_name: Seq::empty(),
        }
    }

    /// The session with the window opened if it was closed, and closed if it
    /// was open.
    pub open spec fn toggled(self) -> SceneEditorModel {
        SceneEditorModel { active: !self.active, ..self }
    }

    /// Whether the "Set parent" button is enabled: both names are filled in
    /// and they differ.
    pub open spec fn can_set_parent(self) -> bool {
        &&& self.parenting_name.len() != 0
        &&& self.parenting_parent_name.len() != 0
        &&& self.parenting_name != self.parenting_parent_name
    }

    /// The session after `text` was typed into `field`. A closed window
    /// shows no field, so nothing changes there.
    pub open spec fn edited(self, field: EditorField, text: Seq<char>) -> SceneEditorModel {
        if !self.active {
            self
        } else {
            match field {
                EditorField::SaveName => SceneEditorModel { save_name: text, ..self },
                EditorField::ParentingName => SceneEditorModel { parenting_name: text, ..self },
                EditorField::ParentingParentName => SceneEditorModel {
                    parenting_parent_name: text,
                    ..self
                },
                EditorField::SpawnName => SceneEditorModel { spawn_name: text, ..self },
                EditorField::ParentName => SceneEditorModel { parent_name: text, ..self },
            }
        }
    }

    /// Whether a click on `button` has any effect: the window is open, and
    /// the button is enabled.
    pub open spec fn accepts(self, button: EditorClick) -> bool {
        self.active && (button is SetParent ==> self.can_set_parent())
    }

    /// The request that a click on `button` sends, if it sends one.
    pub open spec fn request(self, button: EditorClick) -> Option<EditorRequestModel> {
        if !self.accepts(button) {
            None
        } else {
            Some(
                match button {
                    EditorClick::Save => EditorRequestModel::Save { filename: self.save_name },
                    EditorClick::Load => EditorRequestModel::Load { filename: self.save_name },
                    EditorClick::SetParent => EditorRequestModel::ParentChange {
                        name: self.parenting_name,
                        new_parent: self.parenting_parent_name,
                    },
                    EditorClick::Spawn(object) => EditorRequestModel::Spawn {
                        object,
                        name: name_in(self.spawn_name),
                        parent: name_in(self.parent_name),
                    },
                },
            )
        }
    }

    /// The session after a click on `button`: the fields that the request
    /// was made from are emptied, but for the save name, which stays.
    pub open spec fn clicked(self, button: EditorClick) -> SceneEditorModel {
        if !self.accepts(button) {
            self
        } else {
            match button {
                EditorClick::Save | EditorClick::Load => self,
                EditorClick::SetParent => SceneEditorModel {
                    parenting_name: Seq::empty(),
                    parenting_parent_name: Seq::empty(),
                    ..self
                },
                EditorClick::Spawn(_) => SceneEditorModel {
                    spawn_name: Seq::empty(),
                    parent_name: Seq::empty(),
                    ..self
                },
            }
        }
    }
}

/// No request is malformed: a change of parent names two entities, both by
/// a name that is not empty, and a wish for a new object carries no empty
/// name. And nothing comes out of a closed window.
pub proof fn requests_are_well_formed(session: SceneEditorModel, button: EditorClick)
    ensures
        !session.active ==> session.request(button) is None && session.clicked(button) == session,
        session.request(button) matches Some(EditorRequestModel::ParentChange { name, new_parent })
            ==> name.len() > 0 && new_parent.len() > 0 && name != new_parent,
        session.request(button) matches Some(EditorRequestModel::Spawn { object, name, parent })
            ==> button == EditorClick::Spawn(object) && name != Some(Seq::<char>::empty())
            && parent != Some(Seq::<char>::empty()),
        session.request(button) is None ==> session.clicked(button) == session,
{
    assert(Seq::<char>::empty().len() == 0);
}

/// The scene editor's session.
#[derive(Clone, Debug)]
pub struct SceneEditorState {
    active: bool,
    save_name: String,
    spawn_name: String,
    parent_name: String,
    parenting_name: String,
    parenting_parent_name: String,
}

impl View for SceneEditorState {
    type V = SceneEditorModel;

    closed spec fn view(&self) -> SceneEditorModel {
        SceneEditorModel {
            active: self.active,
            save_name: self.save_name@,
            spawn_name: self.spawn_name@,
            parent_name: self.parent_name@,
            parenting_name: self.parenting_name@,
            parenting_parent_name: self.parenting_parent_name@,
        }
    }
}

impl Default for SceneEditorState {
    fn default() -> (state: Self)
        ensures
            state@ == SceneEditorModel::initial(),
    {
        Self {
            save_name: "demo".to_owned(),
            active: false,
            spawn_name: String::new(),
            parent_name: String::new(),
            parenting_name: String::new(),
            parenting_parent_name: String::new(),
        }
    }
}

/// Asks to save the world under a name.
#[derive(Clone, Debug)]
pub struct SaveRequest {
    pub filename: String,
}

/// Asks to load the world saved under a name.
#[derive(Clone, Debug)]
pub struct LoadRequest {
    pub filename: String,
}

/// Asks to hang the entity called `name` below the one called `new_parent`.
#[derive(Clone, Debug)]
pub struct ParentChangeEvent {
    pub name: String,
    pub new_parent: String,
}

/// The editor's wish for a new object, as its window words it.
#[derive(Clone, Debug)]
pub struct SpawnEvent {
    pub object: GameObject,
    pub name: Option<String>,
    pub parent: Option<String>,
}

/// A request to the spawner: the editor's wish with a place in the world.
#[derive(Clone, Debug)]
pub struct SpawnRequestEvent {
    pub object: GameObject,
    pub transform: Transform,
    pub parent: Option<String>,
    pub name: Option<String>,
}

/// What the editor asks of the rest of the game.
#[derive(Clone, Debug)]
pub enum EditorRequest {
    Save(SaveRequest),
    Load(LoadRequest),
    ParentChange(ParentChangeEvent),
    Spawn(SpawnEvent),
}

impl View for EditorRequest {
    type V = EditorRequestModel;

    open spec fn view(&self) -> EditorRequestModel {
        match *self {
            EditorRequest::Save(request) => EditorRequestModel::Save {
                filename: request.filename@,
            },
            EditorRequest::Load(request) => EditorRequestModel::Load {
                filename: request.filename@,
            },
            EditorRequest::ParentChange(event) => EditorRequestModel::ParentChange {
                name: event.name@,
                new_parent: event.new_parent@,
            },
            EditorRequest::Spawn(event) => EditorRequestModel::Spawn {
                object: event.object,
                name: text_of(event.name),
                parent: text_of(event.parent),
            },
        }
    }
}

/// What a request says, or `None` for no request.
pub open spec fn said_by(request: Option<EditorRequest>) -> Option<EditorRequestModel> {
    match request {
        Some(request) => Some(request@),
        None => None,
    }
}

/// What to do to the player's controls when the window opens or closes.
#[derive(Clone, Copy, Debug, PartialEq, Eq, Structural)]
pub enum ActionsFrozen {
    /// The window opened: the controls stop steering the player.
    Insert,
    /// The window closed: the controls steer the player again.
    Remove,
}

/// The name in a text field, taken out of it: `None` where it is empty.
fn name_from(field: String) -> (name: Option<String>)
    ensures
        text_of(name) == name_in(field@),
{
    if field.as_str().is_empty() {
        None
    } else {
        Some(field)
    }
}

impl SceneEditorState {
    /// A session with the given fields.
    pub fn new(
        active: bool,
        save_name: String,
        spawn_name: String,
        parent_name: String,
        parenting_name: String,
        parenting_parent_name: String,
    ) -> (state: Self)
        ensures
            state@ == (SceneEditorModel {
                active,
                save_name: save_name@,
                spawn_name: spawn_name@,
                parent_name: parent_name@,
                parenting_name: parenting_name@,
                parenting_parent_name: parenting_parent_name@,
            }),
    {
        Self { active, save_name, spawn_name, parent_name, parenting_name, parenting_parent_name }
    }

    /// Whether the window is open.
    pub fn active(&self) -> (active: bool)
        ensures
            active == self@.active,
    {
        self.active
    }

    /// The name under which the world is saved and loaded.
    pub fn save_name(&self) -> (text: &String)
        ensures
            text@ == self@.save_name,
    {
        &self.save_name
    }

    /// The name for the next object.
    pub fn spawn_name(&self) -> (text: &String)
        ensures
            text@ == self@.spawn_name,
    {
        &self.spawn_name
    }

    /// The name of the entity to hang the next object below.
    pub fn parent_name(&self) -> (text: &String)
        ensures
            text@ == self@.parent_name,
    {
        &self.parent_name
    }

    /// The name of the entity to move in the hierarchy.
    pub fn parenting_name(&self) -> (text: &String)
        ensures
            text@ == self@.parenting_name,
    {
        &self.parenting_name
    }

    /// The name of the entity to hang it below.
    pub fn parenting_parent_name(&self) -> (text: &String)
        ensures
            text@ == self@.parenting_parent_name,
    {
        &self.parenting_parent_name
    }

    /// Whether the "Set parent" button is enabled.
    pub fn can_set_parent(&self) -> (enabled: bool)
        ensures
            enabled == self@.can_set_parent(),
    {
        !(self.parenting_name.as_str().is_empty() || self.parenting_parent_name.as_str().is_empty())
            && self.parenting_name != self.parenting_parent_name
    }

    /// Takes what the user typed into a field of the open window.
    pub fn edit(&mut self, field: EditorField, text: String)
        ensures
            final(self)@ == old(self)@.edited(field, text@),
    {
        if !self.active {
            return ;
        }
        match field {
            EditorField::SaveName => self.save_name = text,
            EditorField::ParentingName => self.parenting_name = text,
            EditorField::ParentingParentName => self.parenting_parent_name = text,
            EditorField::SpawnName => self.spawn_name = text,
            EditorField::ParentName => self.parent_name = text,
        }
    }
}

/// Opens or closes the editor's window when the toggle was pressed, and says
/// what that means for the player's controls.
pub fn handle_toggle(toggle_editor: bool, scene_editor_state: &mut SceneEditorState) -> (change:
    Option<ActionsFrozen>)
    ensures
        !toggle_editor ==> change is None && final(scene_editor_state)@ == old(scene_editor_state)@,
        toggle_editor ==> final(scene_editor_state)@ == old(scene_editor_state)@.toggled(),
        toggle_editor ==> change == Some(
            if old(scene_editor_state)@.active {
                ActionsFrozen::Remove
            } else {
                ActionsFrozen::Insert
            },
        ),
{
    if !toggle_editor {
        return None;
    }
    scene_editor_state.active = !scene_editor_state.active;
    if scene_editor_state.active {
        Some(ActionsFrozen::Insert)
    } else {
        Some(ActionsFrozen::Remove)
    }
}

/// Answers a click on a button of the editor's window.
///
/// A closed window has no buttons and a disabled button does nothing: then
/// nothing is sent and nothing changes.
pub fn show_editor(editor_state: &mut SceneEditorState, button: EditorClick) -> (request: Option<
    EditorRequest,
>)
    ensures
        said_by(request) == old(editor_state)@.request(button),
        final(editor_state)@ == old(editor_state)@.clicked(button),
{
    if !editor_state.active {
        return None;
    }
    match button {
        EditorClick::Save => Some(
            EditorRequest::Save(SaveRequest { filename: editor_state.save_name.clone() }),
        ),
        EditorClick::Load => Some(
            EditorRequest::Load(LoadRequest { filename: editor_state.save_name.clone() }),
        ),
        EditorClick::SetParent => {
            if !editor_state.can_set_parent() {
                return None;
            }
            let name = editor_state.parenting_name.clone();
            let new_parent = editor_state.parenting_parent_name.clone();
            editor_state.parenting_name = String::new();
            editor_state.parenting_parent_name = String::new();
            Some(EditorRequest::ParentChange(ParentChangeEvent { name, new_parent }))
        },
        EditorClick::Spawn(object) => {
            let name = editor_state.spawn_name.clone();
            editor_state.spawn_name = String::new();
            let name = name_from(name);
            let parent = editor_state.parent_name.clone();
            editor_state.parent_name = String::new();
            let parent = name_from(parent);
            Some(EditorRequest::Spawn(SpawnEvent { object, name, parent }))
        },
    }
}

/// Whether `request` passes `event` on as it is, placed where the spawner
/// puts objects by default.
pub open spec fn relays(request: SpawnRequestEvent, event: SpawnEvent) -> bool {
    &&& request.object == event.object
    &&& request.transform == Transform::identity()
    &&& text_of(request.parent) == text_of(event.parent)
    &&& text_of(request.name) == text_of(event.name)
}

/// A copy of a name.
fn copy_of(name: &Option<String>) -> (copy: Option<String>)
    ensures
        text_of(copy) == text_of(*name),
{
    match name {
        Some(name) => Some(name.clone()),
        None => None,
    }
}

/// Turns the editor's wishes into requests to the spawner, one for one and
/// in the order they were made.
pub fn relay_spawn_requests(spawn_requests: &Vec<SpawnEvent>) -> (relayed: Vec<SpawnRequestEvent>)
    ensures
        relayed@.len() == spawn_requests@.len(),
        forall|i: int|
            0 <= i < relayed@.len() ==> relays(#[trigger] relayed@[i], spawn_requests@[i]),
{
    let mut relayed: Vec<SpawnRequestEvent> = Vec::new();
    let mut i: usize = 0;
    while i < spawn_requests.len()
        invariant
            i <= spawn_requests@.len(),
            relayed@.len() == i,
            forall|k: int| 0 <= k < i ==> relays(#[trigger] relayed@[k], spawn_requests@[k]),
        decreases spawn_requests@.len() - i,
    {
        let object = &spawn_requests[i];
        relayed.push(
            SpawnRequestEvent {
                object: object.object,
                transform: Transform::default(),
                parent: copy_of(&object.parent),
                name: copy_of(&object.name),
            },
        );
        i += 1;
    }
    relayed
}

} // verus!
