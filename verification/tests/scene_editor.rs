use gameplay_systems::scene_editor::{
    handle_toggle, relay_spawn_requests, show_editor, ActionsFrozen, EditorClick, EditorField,
    EditorRequest, SceneEditorState, SpawnEvent,
};
use gameplay_systems::spawning::{GameObject, Offset, Rotation, Scale, Transform};

fn open_editor() -> SceneEditorState {
    let mut state = SceneEditorState::default();
    assert_eq!(handle_toggle(true, &mut state), Some(ActionsFrozen::Insert));
    state
}

fn fields(state: &SceneEditorState) -> [String; 5] {
    [
        state.save_name().clone(),
        state.spawn_name().clone(),
        state.parent_name().clone(),
        state.parenting_name().clone(),
        state.parenting_parent_name().clone(),
    ]
}

fn texts(values: [&str; 5]) -> [String; 5] {
    values.map(|value| value.to_string())
}

#[test]
fn default_editor_is_closed_and_saves_to_demo() {
    let state = SceneEditorState::default();
    assert!(!state.active());
    assert_eq!(fields(&state), texts(["demo", "", "", "", ""]));
}

#[test]
fn new_editor_holds_what_it_was_given() {
    let state = SceneEditorState::new(
        true,
        "a".to_string(),
        "b".to_string(),
        "c".to_string(),
        "d".to_string(),
        "e".to_string(),
    );
    assert!(state.active());
    assert_eq!(fields(&state), texts(["a", "b", "c", "d", "e"]));
}

#[test]
fn toggle_opens_and_closes() {
    let mut state = SceneEditorState::default();
    assert_eq!(handle_toggle(false, &mut state), None);
    assert!(!state.active());
    assert_eq!(handle_toggle(true, &mut state), Some(ActionsFrozen::Insert));
    assert!(state.active());
    assert_eq!(handle_toggle(false, &mut state), None);
    assert!(state.active());
    assert_eq!(handle_toggle(true, &mut state), Some(ActionsFrozen::Remove));
    assert!(!state.active());
    assert_eq!(fields(&state), texts(["demo", "", "", "", ""]));
}

#[test]
fn closed_editor_ignores_everything() {
    let mut state = SceneEditorState::new(
        false,
        "world".to_string(),
        "bob".to_string(),
        "house".to_string(),
        "cat".to_string(),
        "garden".to_string(),
    );
    state.edit(EditorField::SaveName, "other".to_string());
    state.edit(EditorField::SpawnName, "other".to_string());
    for button in [
        EditorClick::Save,
        EditorClick::Load,
        EditorClick::SetParent,
        EditorClick::Spawn(GameObject::Npc),
    ] {
        assert!(show_editor(&mut state, button).is_none());
    }
    assert!(!state.active());
    assert_eq!(fields(&state), texts(["world", "bob", "house", "cat", "garden"]));
}

#[test]
fn edits_reach_their_field() {
    let mut state = open_editor();
    state.edit(EditorField::SaveName, "level".to_string());
    assert_eq!(fields(&state), texts(["level", "", "", "", ""]));
    state.edit(EditorField::SpawnName, "bob".to_string());
    assert_eq!(fields(&state), texts(["level", "bob", "", "", ""]));
    state.edit(EditorField::ParentName, "house".to_string());
    assert_eq!(fields(&state), texts(["level", "bob", "house", "", ""]));
    state.edit(EditorField::ParentingName, "cat".to_string());
    assert_eq!(fields(&state), texts(["level", "bob", "house", "cat", ""]));
    state.edit(EditorField::ParentingParentName, "garden".to_string());
    assert_eq!(fields(&state), texts(["level", "bob", "house", "cat", "garden"]));
    state.edit(EditorField::SaveName, String::new());
    assert_eq!(fields(&state), texts(["", "bob", "house", "cat", "garden"]));
    assert!(state.active());
}

#[test]
fn save_and_load_name_the_file() {
    let mut state = open_editor();
    match show_editor(&mut state, EditorClick::Save) {
        Some(EditorRequest::Save(request)) => assert_eq!(request.filename, "demo"),
        other => panic!("{other:?}"),
    }
    state.edit(EditorField::SaveName, "level 2".to_string());
    match show_editor(&mut state, EditorClick::Load) {
        Some(EditorRequest::Load(request)) => assert_eq!(request.filename, "level 2"),
        other => panic!("{other:?}"),
    }
    match show_editor(&mut state, EditorClick::Save) {
        Some(EditorRequest::Save(request)) => assert_eq!(request.filename, "level 2"),
        other => panic!("{other:?}"),
    }
    assert_eq!(fields(&state), texts(["level 2", "", "", "", ""]));
}

#[test]
fn set_parent_needs_two_different_names() {
    let mut state = open_editor();
    assert!(!state.can_set_parent());
    assert!(show_editor(&mut state, EditorClick::SetParent).is_none());
    state.edit(EditorField::ParentingName, "cat".to_string());
    assert!(!state.can_set_parent());
    assert!(show_editor(&mut state, EditorClick::SetParent).is_none());
    state.edit(EditorField::ParentingParentName, "cat".to_string());
    assert!(!state.can_set_parent());
    assert!(show_editor(&mut state, EditorClick::SetParent).is_none());
    assert_eq!(fields(&state), texts(["demo", "", "", "cat", "cat"]));
    state.edit(EditorField::ParentingName, String::new());
    assert!(!state.can_set_parent());
    assert!(show_editor(&mut state, EditorClick::SetParent).is_none());
    assert_eq!(fields(&state), texts(["demo", "", "", "", "cat"]));
    state.edit(EditorField::ParentingName, "Cat".to_string());
    assert!(state.can_set_parent());
}

#[test]
fn set_parent_sends_the_names_and_empties_them() {
    let mut state = open_editor();
    state.edit(EditorField::ParentingName, "cat".to_string());
    state.edit(EditorField::ParentingParentName, "garden".to_string());
    state.edit(EditorField::SpawnName, "bob".to_string());
    match show_editor(&mut state, EditorClick::SetParent) {
        Some(EditorRequest::ParentChange(event)) => {
            assert_eq!(event.name, "cat");
            assert_eq!(event.new_parent, "garden");
        }
        other => panic!("{other:?}"),
    }
    assert_eq!(fields(&state), texts(["demo", "bob", "", "", ""]));
    assert!(show_editor(&mut state, EditorClick::SetParent).is_none());
}

#[test]
fn spawn_sends_the_names_and_empties_them() {
    let mut state = open_editor();
    state.edit(EditorField::SpawnName, "bob".to_string());
    state.edit(EditorField::ParentName, "house".to_string());
    state.edit(EditorField::ParentingName, "cat".to_string());
    match show_editor(&mut state, EditorClick::Spawn(GameObject::Npc)) {
        Some(EditorRequest::Spawn(event)) => {
            assert_eq!(event.object, GameObject::Npc);
            assert_eq!(event.name.as_deref(), Some("bob"));
            assert_eq!(event.parent.as_deref(), Some("house"));
        }
        other => panic!("{other:?}"),
    }
    assert_eq!(fields(&state), texts(["demo", "", "", "cat", ""]));
}

#[test]
fn spawn_without_names_sends_none() {
    let mut state = open_editor();
    match show_editor(&mut state, EditorClick::Spawn(GameObject::PointLight)) {
        Some(EditorRequest::Spawn(event)) => {
            assert_eq!(event.object, GameObject::PointLight);
            assert_eq!(event.name, None);
            assert_eq!(event.parent, None);
        }
        other => panic!("{other:?}"),
    }
    state.edit(EditorField::ParentName, "house".to_string());
    match show_editor(&mut state, EditorClick::Spawn(GameObject::Orb)) {
        Some(EditorRequest::Spawn(event)) => {
            assert_eq!(event.object, GameObject::Orb);
            assert_eq!(event.name, None);
            assert_eq!(event.parent.as_deref(), Some("house"));
        }
        other => panic!("{other:?}"),
    }
    assert_eq!(fields(&state), texts(["demo", "", "", "", ""]));
}

#[test]
fn relay_places_each_wish_at_the_origin() {
    let wishes = vec![
        SpawnEvent { object: GameObject::Orb, name: Some("glow".to_string()), parent: None },
        SpawnEvent { object: GameObject::Npc, name: None, parent: Some("house".to_string()) },
        SpawnEvent { object: GameObject::PointLight, name: None, parent: None },
    ];
    let requests = relay_spawn_requests(&wishes);
    assert_eq!(requests.len(), 3);
    let identity = Transform {
        translation: Offset { x: 0, y: 0, z: 0 },
        rotation: Rotation { x: 0, y: 0, z: 0, w: 1_000_000 },
        scale: Scale { x: 1_000_000, y: 1_000_000, z: 1_000_000 },
    };
    for (request, wish) in requests.iter().zip(wishes.iter()) {
        assert_eq!(request.object, wish.object);
        assert_eq!(request.name, wish.name);
        assert_eq!(request.parent, wish.parent);
        assert_eq!(request.transform, identity);
    }
    assert_eq!(requests[0].name.as_deref(), Some("glow"));
    assert_eq!(requests[1].parent.as_deref(), Some("house"));
    assert!(relay_spawn_requests(&Vec::new()).is_empty());
}
