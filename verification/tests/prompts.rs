use promptuity::event::KeyCode;
use promptuity::event::KeyModifiers;
use promptuity::prompts::Confirm;
use promptuity::prompts::Input;
use promptuity::prompts::MultiSelect;
use promptuity::prompts::MultiSelectOption;
use promptuity::prompts::Number;
use promptuity::prompts::Select;
use promptuity::prompts::SelectOption;
use promptuity::CursorPosition;
use promptuity::Error;
use promptuity::Prompt;
use promptuity::PromptState;
use promptuity::Promptuity;
use promptuity::TermSize;
use promptuity::Terminal;
use promptuity::Theme;
use promptuity::RenderSnapshot;

struct FakeTerm {
    keys: Vec<(KeyCode, KeyModifiers)>,
    next: usize,
}

impl FakeTerm {
    fn new(keys: &[(KeyCode, KeyModifiers)]) -> Self {
        FakeTerm {
            keys: keys.to_vec(),
            next: 0,
        }
    }
}

impl Terminal for FakeTerm {
    fn size(&self) -> Result<TermSize, Error> {
        Ok(TermSize::new(80, 24))
    }
    fn enable_raw(&mut self) -> Result<(), Error> {
        Ok(())
    }
    fn disable_raw(&mut self) -> Result<(), Error> {
        Ok(())
    }
    fn cursor_show(&mut self) -> Result<(), Error> {
        Ok(())
    }
    fn cursor_hide(&mut self) -> Result<(), Error> {
        Ok(())
    }
    fn cursor_pos(&self) -> Result<CursorPosition, Error> {
        Ok(CursorPosition::new(0, 0))
    }
    fn move_to(&mut self, _col: u16, _row: u16) -> Result<(), Error> {
        Ok(())
    }
    fn move_column(&mut self, _to: u16) -> Result<(), Error> {
        Ok(())
    }
    fn move_next_line(&mut self, _to: u16) -> Result<(), Error> {
        Ok(())
    }
    fn move_previous_line(&mut self, _to: u16) -> Result<(), Error> {
        Ok(())
    }
    fn scroll_up(&mut self, _row: u16) -> Result<(), Error> {
        Ok(())
    }
    fn scroll_down(&mut self, _row: u16) -> Result<(), Error> {
        Ok(())
    }
    fn clear(&mut self) -> Result<(), Error> {
        Ok(())
    }
    fn clear_purge(&mut self) -> Result<(), Error> {
        Ok(())
    }
    fn clear_current_line(&mut self) -> Result<(), Error> {
        Ok(())
    }
    fn clear_cursor_up(&mut self) -> Result<(), Error> {
        Ok(())
    }
    fn clear_cursor_down(&mut self) -> Result<(), Error> {
        Ok(())
    }
    fn write(&mut self, _value: &str) -> Result<(), Error> {
        Ok(())
    }
    fn writeln(&mut self, _value: &str) -> Result<(), Error> {
        Ok(())
    }
    fn flush(&mut self) -> Result<(), Error> {
        Ok(())
    }
    fn read_key(&mut self) -> Result<(KeyCode, KeyModifiers), Error> {
        if self.next < self.keys.len() {
            let key = self.keys[self.next];
            self.next += 1;
            Ok(key)
        } else {
            Err(Error::Io("no more scripted keys".to_string()))
        }
    }
}

struct NoopTheme;

impl Theme<FakeTerm> for NoopTheme {
    fn log(&mut self, _term: &mut FakeTerm, _message: String) -> Result<(), Error> {
        Ok(())
    }
    fn info(&mut self, _term: &mut FakeTerm, _message: String) -> Result<(), Error> {
        Ok(())
    }
    fn warn(&mut self, _term: &mut FakeTerm, _message: String) -> Result<(), Error> {
        Ok(())
    }
    fn error(&mut self, _term: &mut FakeTerm, _message: String) -> Result<(), Error> {
        Ok(())
    }
    fn success(&mut self, _term: &mut FakeTerm, _message: String) -> Result<(), Error> {
        Ok(())
    }
    fn step(&mut self, _term: &mut FakeTerm, _message: String) -> Result<(), Error> {
        Ok(())
    }
    fn begin(&mut self, _term: &mut FakeTerm, _intro: Option<String>) -> Result<(), Error> {
        Ok(())
    }
    fn render(&mut self, _term: &mut FakeTerm, _payload: RenderSnapshot) -> Result<(), Error> {
        Ok(())
    }
    fn finish(
        &mut self,
        _term: &mut FakeTerm,
        _state: &PromptState,
        _outro: Option<String>,
    ) -> Result<(), Error> {
        Ok(())
    }
}

#[derive(Debug, PartialEq)]
struct TestResult {
    input: String,
    password: String,
    number: isize,
    select: usize,
    multi_select: Vec<usize>,
    confirm: bool,
}

#[test]
fn test_prompts() {
    let term = FakeTerm::new(&[
        // Input
        (KeyCode::Char('a'), KeyModifiers::NONE),
        (KeyCode::Char('b'), KeyModifiers::NONE),
        (KeyCode::Char('c'), KeyModifiers::NONE),
        (KeyCode::Enter, KeyModifiers::NONE),
        // Password
        (KeyCode::Char('f'), KeyModifiers::NONE),
        (KeyCode::Char('o'), KeyModifiers::NONE),
        (KeyCode::Char('o'), KeyModifiers::NONE),
        (KeyCode::Enter, KeyModifiers::NONE),
        // Number
        (KeyCode::Char('1'), KeyModifiers::NONE),
        (KeyCode::Char('0'), KeyModifiers::NONE),
        (KeyCode::Char('0'), KeyModifiers::NONE),
        (KeyCode::Home, KeyModifiers::NONE),
        (KeyCode::Char('-'), KeyModifiers::NONE),
        (KeyCode::Enter, KeyModifiers::NONE),
        // Select
        (KeyCode::Char('j'), KeyModifiers::NONE),
        (KeyCode::Down, KeyModifiers::NONE),
        (KeyCode::Enter, KeyModifiers::NONE),
        // MultiSelect
        (KeyCode::Char(' '), KeyModifiers::NONE),
        (KeyCode::Down, KeyModifiers::NONE),
        (KeyCode::Char('j'), KeyModifiers::NONE),
        (KeyCode::Char(' '), KeyModifiers::NONE),
        (KeyCode::Enter, KeyModifiers::NONE),
        // Confirm
        (KeyCode::Right, KeyModifiers::NONE),
        (KeyCode::Left, KeyModifiers::NONE),
        (KeyCode::Char('n'), KeyModifiers::NONE),
        (KeyCode::Enter, KeyModifiers::NONE),
    ]);

    let mut p = Promptuity::new(term, NoopTheme);
    let input = p.prompt(&mut Input::new("Input Message")).unwrap();
    let password = p.prompt(&mut Input::new("Password Message")).unwrap();
    let number = p.prompt(&mut Number::new("Number Message")).unwrap();
    let select = p
        .prompt(&mut Select::new(
            "Select Message",
            vec![
                SelectOption::new("Option1", 1),
                SelectOption::new("Option2", 2),
                SelectOption::new("Option3", 3),
            ],
        ))
        .unwrap();
    let multi_select = p
        .prompt(&mut MultiSelect::new(
            "MultiSelect Message",
            vec![
                MultiSelectOption::new("Option1", 1),
                MultiSelectOption::new("Option2", 2),
                MultiSelectOption::new("Option3", 3),
            ],
        ))
        .unwrap();
    let confirm = p.prompt(&mut Confirm::new("Confirm Message")).unwrap();
    let result = TestResult {
        input,
        password,
        number,
        select,
        multi_select,
        confirm,
    };

    assert_eq!(
        TestResult {
            input: "abc".into(),
            password: "foo".into(),
            number: -100,
            select: 3,
            multi_select: vec![1, 3],
            confirm: false,
        },
        result
    );
}

#[test]
fn required_text_rejects_empty_submission() {
    let mut required = Input::new("name");
    let state = required.handle(KeyCode::Enter, KeyModifiers::NONE);
    assert_eq!(state, PromptState::Error("This field is required.".to_string()));

    let mut blank = Input::new("name");
    for key in [' ', '\t', ' '] {
        blank.handle(KeyCode::Char(key), KeyModifiers::NONE);
    }
    let state = blank.handle(KeyCode::Enter, KeyModifiers::NONE);
    assert_eq!(state, PromptState::Error("This field is required.".to_string()));
}

#[test]
fn non_required_text_submits_empty_value() {
    let term = FakeTerm::new(&[(KeyCode::Enter, KeyModifiers::NONE)]);
    let mut p = Promptuity::new(term, NoopTheme);
    let mut w = Input::new("name");
    w.with_required(false);
    assert_eq!(p.prompt(&mut w), Ok(String::new()));
}

#[test]
fn single_select_down_down_enter_yields_third_option() {
    let term = FakeTerm::new(&[
        (KeyCode::Down, KeyModifiers::NONE),
        (KeyCode::Down, KeyModifiers::NONE),
        (KeyCode::Enter, KeyModifiers::NONE),
    ]);
    let mut p = Promptuity::new(term, NoopTheme);
    let mut w = Select::new(
        "pick",
        vec![
            SelectOption::new("A", "A".to_string()),
            SelectOption::new("B", "B".to_string()),
            SelectOption::new("C", "C".to_string()),
        ],
    );
    w.with_page_size(8);
    assert_eq!(p.prompt(&mut w), Ok("C".to_string()));
}

#[test]
fn select_highlight_stops_at_both_ends() {
    let term = FakeTerm::new(&[
        (KeyCode::Up, KeyModifiers::NONE),
        (KeyCode::Down, KeyModifiers::NONE),
        (KeyCode::Down, KeyModifiers::NONE),
        (KeyCode::Down, KeyModifiers::NONE),
        (KeyCode::Down, KeyModifiers::NONE),
        (KeyCode::Enter, KeyModifiers::NONE),
    ]);
    let mut p = Promptuity::new(term, NoopTheme);
    let mut w = Select::new(
        "pick",
        vec![
            SelectOption::new("A", 0usize),
            SelectOption::new("B", 1usize),
            SelectOption::new("C", 2usize),
        ],
    );
    assert_eq!(p.prompt(&mut w), Ok(2));
}

#[test]
fn select_refuses_empty_options() {
    let term = FakeTerm::new(&[]);
    let mut p = Promptuity::new(term, NoopTheme);
    let mut w: Select<usize> = Select::new("pick", vec![]);
    match p.prompt(&mut w) {
        Err(Error::Config(msg)) => assert_eq!(msg, "options cannot be empty."),
        other => panic!("expected a configuration error, got {:?}", other),
    }
}

#[test]
fn multi_select_space_toggles_and_submits_in_order() {
    let term = FakeTerm::new(&[
        (KeyCode::Char(' '), KeyModifiers::NONE),
        (KeyCode::Down, KeyModifiers::NONE),
        (KeyCode::Down, KeyModifiers::NONE),
        (KeyCode::Char(' '), KeyModifiers::NONE),
        (KeyCode::Enter, KeyModifiers::NONE),
    ]);
    let mut p = Promptuity::new(term, NoopTheme);
    let mut w = MultiSelect::new(
        "pick",
        vec![
            MultiSelectOption::new("A", 0usize),
            MultiSelectOption::new("B", 1usize),
            MultiSelectOption::new("C", 2usize),
            MultiSelectOption::new("D", 3usize),
            MultiSelectOption::new("E", 4usize),
        ],
    );
    assert_eq!(p.prompt(&mut w), Ok(vec![0, 2]));
}

#[test]
fn multi_select_toggling_twice_leaves_no_duplicate() {
    let term = FakeTerm::new(&[
        (KeyCode::Char(' '), KeyModifiers::NONE),
        (KeyCode::Char(' '), KeyModifiers::NONE),
        (KeyCode::Char(' '), KeyModifiers::NONE),
        (KeyCode::Down, KeyModifiers::NONE),
        (KeyCode::Char(' '), KeyModifiers::NONE),
        (KeyCode::Enter, KeyModifiers::NONE),
    ]);
    let mut p = Promptuity::new(term, NoopTheme);
    let mut w = MultiSelect::new(
        "pick",
        vec![
            MultiSelectOption::new("A", 0usize),
            MultiSelectOption::new("B", 1usize),
            MultiSelectOption::new("C", 2usize),
        ],
    );
    assert_eq!(p.prompt(&mut w), Ok(vec![0, 1]));
}

#[test]
fn multi_select_all_and_invert() {
    let mut w = MultiSelect::new(
        "pick",
        vec![
            MultiSelectOption::new("A", 0usize),
            MultiSelectOption::new("B", 1usize),
            MultiSelectOption::new("C", 2usize),
        ],
    );
    assert_eq!(w.handle(KeyCode::Char('a'), KeyModifiers::NONE), PromptState::Active);
    assert_eq!(w.handle(KeyCode::Down, KeyModifiers::NONE), PromptState::Active);
    assert_eq!(w.handle(KeyCode::Char(' '), KeyModifiers::NONE), PromptState::Active);
    assert_eq!(w.handle(KeyCode::Char('i'), KeyModifiers::NONE), PromptState::Active);
    assert_eq!(w.handle(KeyCode::Enter, KeyModifiers::NONE), PromptState::Submit);
    assert_eq!(w.submit(), vec![1]);
}

#[test]
fn multi_select_enforces_required_min_and_max() {
    let options = || {
        vec![
            MultiSelectOption::new("A", 0usize),
            MultiSelectOption::new("B", 1usize),
            MultiSelectOption::new("C", 2usize),
        ]
    };

    let mut required = MultiSelect::new("pick", options());
    assert_eq!(
        required.handle(KeyCode::Enter, KeyModifiers::NONE),
        PromptState::Error("This field is required.".to_string())
    );

    let mut with_min = MultiSelect::new("pick", options());
    with_min.with_min(2);
    with_min.handle(KeyCode::Char(' '), KeyModifiers::NONE);
    assert_eq!(
        with_min.handle(KeyCode::Enter, KeyModifiers::NONE),
        PromptState::Error("Please select at least 2 options.".to_string())
    );

    let mut with_max = MultiSelect::new("pick", options());
    with_max.with_max(1);
    with_max.handle(KeyCode::Char('a'), KeyModifiers::NONE);
    assert_eq!(
        with_max.handle(KeyCode::Enter, KeyModifiers::NONE),
        PromptState::Error("Please select no more than 1 options.".to_string())
    );
}

#[test]
fn number_distinguishes_its_three_errors() {
    let mut empty = Number::new("n");
    assert_eq!(
        empty.handle(KeyCode::Enter, KeyModifiers::NONE),
        PromptState::Error("This field is required.".to_string())
    );

    let mut lone_sign = Number::new("n");
    lone_sign.handle(KeyCode::Char('-'), KeyModifiers::NONE);
    assert_eq!(
        lone_sign.handle(KeyCode::Enter, KeyModifiers::NONE),
        PromptState::Error("Invalid number.".to_string())
    );

    let mut out_of_range = Number::new("n");
    out_of_range.with_min(2);
    out_of_range.with_max(4);
    out_of_range.handle(KeyCode::Char('1'), KeyModifiers::NONE);
    assert_eq!(
        out_of_range.handle(KeyCode::Enter, KeyModifiers::NONE),
        PromptState::Error("Must be a number between 2 and 4.".to_string())
    );
}

#[test]
fn number_typing_rules() {
    let mut w = Number::new("n");
    w.handle(KeyCode::Char('x'), KeyModifiers::NONE);
    w.handle(KeyCode::Char('1'), KeyModifiers::NONE);
    w.handle(KeyCode::Char('2'), KeyModifiers::NONE);
    w.handle(KeyCode::Home, KeyModifiers::NONE);
    w.handle(KeyCode::Char('-'), KeyModifiers::NONE);
    // a second sign is ignored
    w.handle(KeyCode::Home, KeyModifiers::NONE);
    w.handle(KeyCode::Char('+'), KeyModifiers::NONE);
    // a digit typed in front of the sign lands after it
    w.handle(KeyCode::Home, KeyModifiers::NONE);
    w.handle(KeyCode::Char('3'), KeyModifiers::NONE);
    assert_eq!(w.handle(KeyCode::Enter, KeyModifiers::NONE), PromptState::Submit);
    assert_eq!(w.submit(), -312);
}

#[test]
fn number_steps_clamp_to_range() {
    let mut w = Number::new("n");
    w.with_min(2);
    w.with_max(4);
    w.handle(KeyCode::Char('1'), KeyModifiers::NONE);
    w.handle(KeyCode::Char('0'), KeyModifiers::NONE);
    // step up from 10 clamps down into [2, 4]
    w.handle(KeyCode::Up, KeyModifiers::NONE);
    assert_eq!(w.handle(KeyCode::Enter, KeyModifiers::NONE), PromptState::Submit);
    assert_eq!(w.submit(), 4);

    let mut down = Number::new("n");
    down.with_min(2);
    down.with_max(4);
    down.handle(KeyCode::Down, KeyModifiers::NONE);
    assert_eq!(down.handle(KeyCode::Enter, KeyModifiers::NONE), PromptState::Submit);
    assert_eq!(down.submit(), 2);
}

#[test]
fn number_submits_via_driver() {
    let term = FakeTerm::new(&[
        (KeyCode::Char('1'), KeyModifiers::NONE),
        (KeyCode::Enter, KeyModifiers::NONE),
        (KeyCode::Backspace, KeyModifiers::NONE),
        (KeyCode::Char('2'), KeyModifiers::NONE),
        (KeyCode::Enter, KeyModifiers::NONE),
    ]);
    let mut p = Promptuity::new(term, NoopTheme);
    let mut w = Number::new("n");
    w.with_min(2);
    // the first submission is rejected as out of range and re-prompted
    assert_eq!(p.prompt(&mut w), Ok(2));
}

#[test]
fn confirm_keys() {
    let mut w = Confirm::new("sure?");
    assert_eq!(w.handle(KeyCode::Enter, KeyModifiers::NONE), PromptState::Submit);
    assert_eq!(w.submit(), false);

    let mut y = Confirm::new("sure?");
    assert_eq!(w.handle(KeyCode::Left, KeyModifiers::NONE), PromptState::Active);
    assert_eq!(y.handle(KeyCode::Char('Y'), KeyModifiers::NONE), PromptState::Submit);
    assert_eq!(y.submit(), true);

    let mut n = Confirm::new("sure?");
    n.with_default(true);
    assert_eq!(n.handle(KeyCode::Char('n'), KeyModifiers::NONE), PromptState::Submit);
    assert_eq!(n.submit(), false);

    let mut moved = Confirm::new("sure?");
    moved.handle(KeyCode::Left, KeyModifiers::NONE);
    moved.handle(KeyCode::Right, KeyModifiers::NONE);
    moved.handle(KeyCode::Char('h'), KeyModifiers::NONE);
    assert_eq!(moved.handle(KeyCode::Enter, KeyModifiers::NONE), PromptState::Submit);
    assert_eq!(moved.submit(), true);
}

#[test]
fn confirm_submits_via_driver() {
    let term = FakeTerm::new(&[
        (KeyCode::Right, KeyModifiers::NONE),
        (KeyCode::Left, KeyModifiers::NONE),
        (KeyCode::Enter, KeyModifiers::NONE),
    ]);
    let mut p = Promptuity::new(term, NoopTheme);
    assert_eq!(p.prompt(&mut Confirm::new("sure?")), Ok(true));
}

#[test]
fn cancel_produces_the_cancellation_outcome_for_every_prompt() {
    let esc = [(KeyCode::Esc, KeyModifiers::NONE)];
    let typed_then_ctrl_c = [
        (KeyCode::Char('a'), KeyModifiers::NONE),
        (KeyCode::Char('b'), KeyModifiers::NONE),
        (KeyCode::Char('c'), KeyModifiers::CONTROL),
    ];

    let mut p = Promptuity::new(FakeTerm::new(&esc), NoopTheme);
    assert_eq!(p.prompt(&mut Input::new("q")), Err(Error::Cancel));

    let mut p = Promptuity::new(FakeTerm::new(&typed_then_ctrl_c), NoopTheme);
    assert_eq!(p.prompt(&mut Input::new("q")), Err(Error::Cancel));

    let mut p = Promptuity::new(FakeTerm::new(&esc), NoopTheme);
    assert_eq!(p.prompt(&mut Number::new("q")), Err(Error::Cancel));

    let mut p = Promptuity::new(FakeTerm::new(&esc), NoopTheme);
    let mut select = Select::new("q", vec![SelectOption::new("A", 0usize)]);
    assert_eq!(p.prompt(&mut select), Err(Error::Cancel));

    let mut p = Promptuity::new(FakeTerm::new(&esc), NoopTheme);
    let mut multi = MultiSelect::new("q", vec![MultiSelectOption::new("A", 0usize)]);
    assert_eq!(p.prompt(&mut multi), Err(Error::Cancel));

    let mut p = Promptuity::new(FakeTerm::new(&esc), NoopTheme);
    assert_eq!(p.prompt(&mut Confirm::new("q")), Err(Error::Cancel));
}

#[test]
fn validation_failure_reprompts_instead_of_submitting() {
    struct NotAbc;
    impl promptuity::Validator<String> for NotAbc {
        fn validate(&self, value: &String) -> Result<(), String> {
            if value == "abc" {
                Err("Error Message".to_string())
            } else {
                Ok(())
            }
        }
    }

    let term = FakeTerm::new(&[
        (KeyCode::Char('a'), KeyModifiers::NONE),
        (KeyCode::Char('b'), KeyModifiers::NONE),
        (KeyCode::Char('c'), KeyModifiers::NONE),
        (KeyCode::Enter, KeyModifiers::NONE),
        (KeyCode::Backspace, KeyModifiers::NONE),
        (KeyCode::Char('z'), KeyModifiers::NONE),
        (KeyCode::Enter, KeyModifiers::NONE),
    ]);
    let mut p = Promptuity::new(term, NoopTheme);
    let mut w = Input::new("q");
    w.with_validator(NotAbc);
    assert_eq!(p.prompt(&mut w), Ok("abz".to_string()));
}

#[test]
fn editing_keys_drive_the_text_widget() {
    let mut w = Input::new("q");
    w.with_default("abcdef");
    let script = [
        (KeyCode::Backspace, KeyModifiers::NONE),
        (KeyCode::Char('h'), KeyModifiers::CONTROL),
        (KeyCode::Char('h'), KeyModifiers::NONE),
        (KeyCode::Home, KeyModifiers::NONE),
        (KeyCode::Delete, KeyModifiers::NONE),
        (KeyCode::Right, KeyModifiers::NONE),
        (KeyCode::Char('d'), KeyModifiers::CONTROL),
        (KeyCode::Char('k'), KeyModifiers::CONTROL),
        (KeyCode::Char('a'), KeyModifiers::NONE),
        (KeyCode::Char('r'), KeyModifiers::NONE),
        (KeyCode::Char(' '), KeyModifiers::NONE),
        (KeyCode::Char('b'), KeyModifiers::NONE),
        (KeyCode::Char('a'), KeyModifiers::NONE),
        (KeyCode::Char('z'), KeyModifiers::NONE),
        (KeyCode::Char('w'), KeyModifiers::CONTROL),
        (KeyCode::Char('a'), KeyModifiers::NONE),
        (KeyCode::Char('b'), KeyModifiers::NONE),
        (KeyCode::Char('c'), KeyModifiers::NONE),
        (KeyCode::Enter, KeyModifiers::NONE),
    ];
    let mut last = PromptState::Active;
    for (code, modifiers) in script {
        last = w.handle(code, modifiers);
    }
    assert_eq!(last, PromptState::Submit);
    // "abcdef" -> backspace x2 -> "abcd", then 'h' -> "abcdh";
    // home, delete -> "bcdh"; right, ctrl-d -> "bdh"... ctrl-k truncates;
    // the remaining keys type "bar baz", delete the word "baz", and type "abc".
    assert_eq!(w.submit(), "bar abc".to_string());
}

#[test]
fn select_moves_across_page_boundaries() {
    let mut keys: Vec<(KeyCode, KeyModifiers)> = Vec::new();
    for _ in 0..9 {
        keys.push((KeyCode::Down, KeyModifiers::NONE));
    }
    keys.push((KeyCode::Up, KeyModifiers::NONE));
    keys.push((KeyCode::Char('k'), KeyModifiers::NONE));
    keys.push((KeyCode::Enter, KeyModifiers::NONE));
    let term = FakeTerm::new(&keys);
    let mut p = Promptuity::new(term, NoopTheme);
    let options: Vec<SelectOption<usize>> = (0..10)
        .map(|i| SelectOption::new(&format!("Value{}", i), i))
        .collect();
    let mut w = Select::new("pick", options);
    w.with_page_size(5);
    // nine steps down reach the last entry; two steps back up land on 7
    assert_eq!(p.prompt(&mut w), Ok(7));
}

#[test]
fn session_lifecycle_and_logging() {
    let term = FakeTerm::new(&[(KeyCode::Char('y'), KeyModifiers::NONE)]);
    let mut p = Promptuity::new(term, NoopTheme);
    p.with_intro("Survey");
    p.begin().unwrap();
    p.step("step").unwrap();
    p.log("log").unwrap();
    p.info("info").unwrap();
    p.warn("warn").unwrap();
    p.error("error").unwrap();
    p.success("success").unwrap();
    let sure = p.prompt(&mut Confirm::new("sure?")).unwrap();
    assert!(sure);
    p.with_outro("Bye");
    p.finish().unwrap();
}

#[test]
fn error_messages() {
    assert_eq!(Error::Cancel.message(), "Operation canceled");
    assert_eq!(Error::Io("x".to_string()).message(), "IO error: x");
    assert_eq!(Error::Config("bad".to_string()).message(), "Config error: bad");
    assert_eq!(Error::Prompt("oops".to_string()).message(), "Prompt error: oops");
}
