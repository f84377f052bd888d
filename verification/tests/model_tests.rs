use bubbletea_rs::{KeyCode, KeyModifiers, KeyMsg, Model, QuitMsg};
use std::any::Any;
use std::future::Future;
use std::pin::Pin;

type Msg = Box<dyn Any + Send>;
type Cmd = Pin<Box<dyn Future<Output = Option<Msg>> + Send>>;

#[derive(Debug, Clone)]
struct CounterModel {
    count: i32,
    step: i32,
}

impl Model for CounterModel {
    type Msg = Msg;
    type Cmd = Cmd;

    fn init() -> (Self, Option<Cmd>) {
        (Self { count: 0, step: 1 }, None)
    }

    fn update(&mut self, msg: Msg) -> Option<Cmd> {
        if let Some(key_msg) = msg.downcast_ref::<KeyMsg>() {
            match key_msg.key {
                KeyCode::Up | KeyCode::Char('+') => {
                    self.count += self.step;
                }
                KeyCode::Down | KeyCode::Char('-') => {
                    self.count -= self.step;
                }
                KeyCode::Char('r') => {
                    self.count = 0;
                }
                KeyCode::Char('s') => {
                    self.step = if self.step == 1 { 10 } else { 1 };
                }
                KeyCode::Char('q') => {
                    return Some(Box::pin(async { Some(Box::new(QuitMsg) as Msg) }));
                }
                _ => {}
            }
        }
        None
    }

    fn view(&self) -> String {
        format!(
            "Counter: {}\nStep: {}\n\nControls:\n↑/+ : Increment\n↓/- : Decrement\nr : Reset\ns : Toggle step (1/10)\nq : Quit",
            self.count, self.step
        )
    }
}

#[derive(Debug, Clone)]
struct TextInputModel {
    content: String,
    cursor: usize,
    max_length: usize,
}

impl Model for TextInputModel {
    type Msg = Msg;
    type Cmd = Cmd;

    fn init() -> (Self, Option<Cmd>) {
        (
            Self {
                content: String::new(),
                cursor: 0,
                max_length: 100,
            },
            None,
        )
    }

    fn update(&mut self, msg: Msg) -> Option<Cmd> {
        if let Some(key_msg) = msg.downcast_ref::<KeyMsg>() {
            match key_msg.key {
                KeyCode::Char(c) if self.content.len() < self.max_length => {
                    self.content.insert(self.cursor, c);
                    self.cursor += 1;
                }
                KeyCode::Backspace if self.cursor > 0 => {
                    self.cursor -= 1;
                    self.content.remove(self.cursor);
                }
                KeyCode::Delete if self.cursor < self.content.len() => {
                    self.content.remove(self.cursor);
                }
                KeyCode::Left if self.cursor > 0 => {
                    self.cursor -= 1;
                }
                KeyCode::Right if self.cursor < self.content.len() => {
                    self.cursor += 1;
                }
                KeyCode::Home => {
                    self.cursor = 0;
                }
                KeyCode::End => {
                    self.cursor = self.content.len();
                }
                KeyCode::Esc => {
                    return Some(Box::pin(async { Some(Box::new(QuitMsg) as Msg) }));
                }
                _ => {}
            }
        }
        None
    }

    fn view(&self) -> String {
        let mut display = self.content.clone();
        display.insert(self.cursor, '|');

        format!(
            "Text Input ({}/{})\n\n{}\n\nControls:\nType to add text\n← → : Move cursor\nBackspace/Delete : Remove text\nHome/End : Jump to start/end\nEsc : Quit",
            self.content.len(),
            self.max_length,
            display
        )
    }
}

fn key(code: KeyCode) -> Msg {
    Box::new(KeyMsg {
        key: code,
        modifiers: KeyModifiers::empty(),
    })
}

#[test]
fn test_counter_model_init() {
    let (model, cmd) = CounterModel::init();
    assert_eq!(model.count, 0);
    assert_eq!(model.step, 1);
    assert!(cmd.is_none());
}

#[test]
fn test_counter_model_update() {
    let (mut model, _) = CounterModel::init();

    let cmd = model.update(key(KeyCode::Up));
    assert_eq!(model.count, 1);
    assert!(cmd.is_none());

    model.update(key(KeyCode::Down));
    assert_eq!(model.count, 0);

    model.count = 42;
    model.update(key(KeyCode::Char('r')));
    assert_eq!(model.count, 0);
}

#[test]
fn test_counter_model_view() {
    let (model, _) = CounterModel::init();
    let view = model.view();
    assert!(view.contains("Counter: 0"));
    assert!(view.contains("Step: 1"));
    assert!(view.contains("Controls:"));
}

#[test]
fn test_text_input_model_init() {
    let (model, cmd) = TextInputModel::init();
    assert!(model.content.is_empty());
    assert_eq!(model.cursor, 0);
    assert_eq!(model.max_length, 100);
    assert!(cmd.is_none());
}

#[test]
fn test_text_input_model_char_input() {
    let (mut model, _) = TextInputModel::init();

    model.update(key(KeyCode::Char('H')));
    assert_eq!(model.content, "H");
    assert_eq!(model.cursor, 1);

    model.update(key(KeyCode::Char('i')));
    assert_eq!(model.content, "Hi");
    assert_eq!(model.cursor, 2);
}

#[test]
fn test_text_input_model_backspace() {
    let (mut model, _) = TextInputModel::init();
    model.content = "Hello".to_string();
    model.cursor = 5;

    model.update(key(KeyCode::Backspace));
    assert_eq!(model.content, "Hell");
    assert_eq!(model.cursor, 4);
}

#[test]
fn test_text_input_model_cursor_movement() {
    let (mut model, _) = TextInputModel::init();
    model.content = "Hello".to_string();
    model.cursor = 2;

    model.update(key(KeyCode::Left));
    assert_eq!(model.cursor, 1);

    model.update(key(KeyCode::Right));
    assert_eq!(model.cursor, 2);

    model.update(key(KeyCode::Home));
    assert_eq!(model.cursor, 0);

    model.update(key(KeyCode::End));
    assert_eq!(model.cursor, 5);
}

#[test]
fn test_model_trait_bounds() {
    fn assert_send<T: Send>() {}
    fn assert_sized<T: Sized>() {}
    fn assert_static<T: 'static>() {}

    assert_send::<CounterModel>();
    assert_sized::<CounterModel>();
    assert_static::<CounterModel>();

    assert_send::<TextInputModel>();
    assert_sized::<TextInputModel>();
    assert_static::<TextInputModel>();
}

#[test]
fn test_model_send_sync_static() {
    fn assert_send_sync_static<T: Send + Sync + 'static>() {}
    assert_send_sync_static::<CounterModel>();
    assert_send_sync_static::<TextInputModel>();
}
