use lazyworkflows::ui::{App, BorderColour, Event, HandleEventMsg, Key, StatefulList, Views};

fn items() -> Vec<(String, String)> {
    vec![
        ("Workflow 1".to_string(), "id:1234".to_string()),
        ("Workflow 2".to_string(), "id:1552".to_string()),
    ]
}

#[test]
fn views_follow_each_other_in_a_ring() {
    assert_eq!(Views::Main.next(), Views::Workflows);
    assert_eq!(Views::Workflows.next(), Views::Main);
    assert_eq!(Views::Main.next().next(), Views::Main);
}

#[test]
fn views_are_shown_by_their_names() {
    assert_eq!(Views::Main.label(), "Main");
    assert_eq!(Views::Workflows.label(), "Workflows");
}

#[test]
fn a_new_list_selects_nothing() {
    let list = StatefulList::with_items(vec![1, 2, 3]);
    assert_eq!(list.selected, None);
    assert_eq!(list.items, vec![1, 2, 3]);
}

#[test]
fn next_steps_forward_and_wraps() {
    let mut list = StatefulList::with_items(vec!['a', 'b', 'c']);
    list.next();
    assert_eq!(list.selected, Some(0));
    list.next();
    assert_eq!(list.selected, Some(1));
    list.next();
    assert_eq!(list.selected, Some(2));
    list.next();
    assert_eq!(list.selected, Some(0));
    assert_eq!(list.items, vec!['a', 'b', 'c']);
}

#[test]
fn previous_steps_back_and_wraps() {
    let mut list = StatefulList::with_items(vec!['a', 'b', 'c']);
    list.previous();
    assert_eq!(list.selected, Some(0));
    list.previous();
    assert_eq!(list.selected, Some(2));
    list.previous();
    assert_eq!(list.selected, Some(1));
    list.previous();
    assert_eq!(list.selected, Some(0));
}

#[test]
fn steps_in_an_empty_list_select_the_first_place() {
    let mut list: StatefulList<u8> = StatefulList::with_items(Vec::new());
    list.next();
    assert_eq!(list.selected, Some(0));
    list.next();
    assert_eq!(list.selected, Some(0));
    list.previous();
    assert_eq!(list.selected, Some(0));
    list.unselect();
    list.previous();
    assert_eq!(list.selected, Some(0));
}

#[test]
fn a_selection_behind_the_end_steps_to_the_first_place() {
    let mut list = StatefulList { selected: Some(9), items: vec![1, 2] };
    list.next();
    assert_eq!(list.selected, Some(0));
    let mut list = StatefulList { selected: Some(9), items: vec![1, 2] };
    list.previous();
    assert_eq!(list.selected, Some(8));
}

#[test]
fn unselect_selects_nothing() {
    let mut list = StatefulList::with_items(vec![1, 2]);
    list.next();
    list.unselect();
    assert_eq!(list.selected, None);
    assert_eq!(list.items, vec![1, 2]);
}

#[test]
fn a_new_screen_shows_the_main_view() {
    let app = App::new(items());
    assert_eq!(app.view_state, Views::Main);
    assert_eq!(app.workflows_items.selected, None);
    assert_eq!(app.workflows_items.items, items());
}

#[test]
fn q_ends_the_loop_and_changes_nothing() {
    let mut app = App::new(items());
    assert_eq!(app.handle_event(Event::Input(Key::Char('q'))), HandleEventMsg::Exit);
    assert_eq!(app.view_state, Views::Main);
}

#[test]
fn the_tabulator_switches_the_view() {
    let mut app = App::new(items());
    assert_eq!(app.handle_event(Event::Input(Key::Tab)), HandleEventMsg::Continue);
    assert_eq!(app.view_state, Views::Workflows);
    assert_eq!(app.handle_event(Event::Input(Key::Tab)), HandleEventMsg::Continue);
    assert_eq!(app.view_state, Views::Main);
}

#[test]
fn other_events_do_nothing() {
    let mut app = App::new(items());
    for event in [
        Event::Input(Key::Char('Q')),
        Event::Input(Key::Char('x')),
        Event::Input(Key::Other),
        Event::Tick,
    ] {
        assert_eq!(app.handle_event(event), HandleEventMsg::Continue);
        assert_eq!(app.view_state, Views::Main);
        assert_eq!(app.workflows_items.items, items());
    }
}

#[test]
fn the_border_of_the_shown_view_is_light_red() {
    assert_eq!(App::border_colour(&Views::Main, &Views::Main), BorderColour::LightRed);
    assert_eq!(App::border_colour(&Views::Main, &Views::Workflows), BorderColour::Gray);
    assert_eq!(App::border_colour(&Views::Workflows, &Views::Main), BorderColour::Gray);
    assert_eq!(App::border_colour(&Views::Workflows, &Views::Workflows), BorderColour::LightRed);
}
