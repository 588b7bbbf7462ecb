use promptuity::event::KeyCode;
use promptuity::event::KeyModifiers;
use promptuity::prompts::Confirm;
use promptuity::prompts::Input;
use promptuity::prompts::MultiSelect;
use promptuity::prompts::MultiSelectOption;
use promptuity::prompts::Number;
use promptuity::prompts::Select;
use promptuity::prompts::SelectOption;
use promptuity::Error;
use promptuity::Prompt;
use promptuity::PromptBody;
use promptuity::PromptInput;
use promptuity::PromptState;

fn body_of(payload: promptuity::RenderPayload) -> String {
    match payload.body {
        PromptBody::Raw(s) => s,
        PromptBody::Empty => panic!("expected a body"),
    }
}

fn raw_input_of(payload: promptuity::RenderPayload) -> String {
    match payload.input {
        PromptInput::Raw(s) => s,
        _ => panic!("expected finished input text"),
    }
}

#[test]
fn select_live_body_lists_the_window_with_one_active_marker() {
    let mut w = Select::new(
        "pick",
        vec![
            SelectOption::new("A", 0usize),
            SelectOption::new("B", 1usize).with_hint("good"),
            SelectOption::new("C", 2usize),
        ],
    );
    let payload = w.render(&PromptState::Active).unwrap();
    assert_eq!(
        body_of(payload),
        "\u{25c9} A\n\u{25ef} B (good)\n\u{25ef} C"
    );

    w.handle(KeyCode::Down, KeyModifiers::NONE);
    let payload = w.render(&PromptState::Active).unwrap();
    assert_eq!(
        body_of(payload),
        "\u{25ef} A\n\u{25c9} B (good)\n\u{25ef} C"
    );
}

#[test]
fn select_live_body_shows_only_the_visible_page() {
    let options: Vec<SelectOption<usize>> = (0..6)
        .map(|i| SelectOption::new(&format!("V{}", i), i))
        .collect();
    let mut w = Select::new("pick", options);
    w.with_page_size(3);
    for _ in 0..4 {
        w.handle(KeyCode::Down, KeyModifiers::NONE);
    }
    // index 4 of 6 with capacity 3: window = V3..V5, cursor in the middle
    let payload = w.render(&PromptState::Active).unwrap();
    assert_eq!(
        body_of(payload),
        "\u{25ef} V3\n\u{25c9} V4\n\u{25ef} V5"
    );
}

#[test]
fn select_submit_shows_the_chosen_label_and_no_body() {
    let mut w = Select::new(
        "pick",
        vec![SelectOption::new("A", 0usize), SelectOption::new("B", 1usize)],
    );
    w.handle(KeyCode::Down, KeyModifiers::NONE);
    let payload = w.render(&PromptState::Submit).unwrap();
    assert!(matches!(payload.body, PromptBody::Empty));
    assert_eq!(raw_input_of(payload), "B");
}

#[test]
fn multi_select_live_body_marks_picked_entries() {
    let mut w = MultiSelect::new(
        "pick",
        vec![
            MultiSelectOption::new("A", 0usize),
            MultiSelectOption::new("B", 1usize),
            MultiSelectOption::new("C", 2usize),
        ],
    );
    w.handle(KeyCode::Char(' '), KeyModifiers::NONE);
    w.handle(KeyCode::Down, KeyModifiers::NONE);
    let payload = w.render(&PromptState::Active).unwrap();
    assert_eq!(
        body_of(payload),
        "\u{25c9} A\n\u{25ef} B\n\u{25ef} C"
    );
}

#[test]
fn multi_select_submit_joins_the_picked_labels() {
    let mut w = MultiSelect::new(
        "pick",
        vec![
            MultiSelectOption::new("A", 0usize),
            MultiSelectOption::new("B", 1usize),
            MultiSelectOption::new("C", 2usize),
        ],
    );
    w.handle(KeyCode::Char(' '), KeyModifiers::NONE);
    w.handle(KeyCode::Down, KeyModifiers::NONE);
    w.handle(KeyCode::Down, KeyModifiers::NONE);
    w.handle(KeyCode::Char(' '), KeyModifiers::NONE);
    let payload = w.render(&PromptState::Submit).unwrap();
    assert!(matches!(payload.body, PromptBody::Empty));
    assert_eq!(raw_input_of(payload), "A, C");
}

#[test]
fn confirm_render_strings() {
    let mut w = Confirm::new("sure?");
    let live = w.render(&PromptState::Active).unwrap();
    assert_eq!(
        raw_input_of(live),
        "\u{25cb} Yes  /  \u{25cf} No"
    );
    w.with_default(true);
    let live = w.render(&PromptState::Active).unwrap();
    assert_eq!(
        raw_input_of(live),
        "\u{25cf} Yes  /  \u{25cb} No"
    );
    let submitted = w.render(&PromptState::Submit).unwrap();
    assert_eq!(raw_input_of(submitted), "Yes");
    let cancelled = w.render(&PromptState::Cancel).unwrap();
    assert!(matches!(cancelled.input, PromptInput::Empty));
}

#[test]
fn number_setup_message_names_the_bounds() {
    let mut w = Number::new("n");
    w.with_min(5);
    w.with_max(3);
    match w.setup() {
        Err(Error::Config(msg)) => {
            assert_eq!(msg, "min cannot be greater than max (min=5, max=3)")
        }
        other => panic!("expected a configuration error, got {:?}", other),
    }
}

#[test]
fn multi_select_setup_messages_and_precedence() {
    let mut empty: MultiSelect<usize> = MultiSelect::new("pick", vec![]);
    // the empty-options error wins even when the bounds are also inverted
    empty.with_min(5);
    empty.with_max(3);
    match empty.setup() {
        Err(Error::Config(msg)) => assert_eq!(msg, "options cannot be empty."),
        other => panic!("expected a configuration error, got {:?}", other),
    }

    let mut inverted = MultiSelect::new("pick", vec![MultiSelectOption::new("A", 0usize)]);
    inverted.with_min(5);
    inverted.with_max(3);
    match inverted.setup() {
        Err(Error::Config(msg)) => {
            assert_eq!(msg, "min cannot be greater than max (min=5, max=3)")
        }
        other => panic!("expected a configuration error, got {:?}", other),
    }
}

#[test]
fn text_widget_renders_carry_no_body() {
    let mut input = Input::new("q");
    let payload = input.render(&PromptState::Active).unwrap();
    assert!(matches!(payload.body, PromptBody::Empty));
    assert!(matches!(payload.input, PromptInput::Cursor(_)));
}
