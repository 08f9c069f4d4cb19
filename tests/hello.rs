use hello_world::{HelloWorld, Label, Stack};

fn greeting_stack() -> Stack {
    Stack {
        padding: 20,
        labels: vec![Label { content: String::from("Hello, world!"), size: 50 }],
    }
}

#[test]
fn initial_model_is_the_default_on_every_construction() {
    let a = HelloWorld::default();
    let b = HelloWorld::default();
    assert_eq!(a, b);
    assert_eq!(a, HelloWorld);
}

#[test]
fn update_leaves_the_model_unchanged() {
    let mut m = HelloWorld::default();
    let before = m;
    let _task = m.update(());
    assert_eq!(m, before);
}

#[test]
fn layout_is_the_greeting_in_a_padded_column() {
    let m = HelloWorld::default();
    let s = m.layout();
    assert_eq!(s.padding, 20);
    assert_eq!(s.labels.len(), 1);
    assert_eq!(s.labels[0].content, "Hello, world!");
    assert_eq!(s.labels[0].size, 50);
}

#[test]
fn layout_is_the_same_on_every_call() {
    let m = HelloWorld::default();
    let first = m.layout();
    let second = m.layout();
    assert_eq!(first, second);
    assert_eq!(first, greeting_stack());
}

#[test]
fn window_title_and_single_text_node() {
    let m = HelloWorld::default();
    assert_eq!(m.title(), "Hello World - Iced");
    let s = m.layout();
    let greetings = s.labels.iter().filter(|l| l.content == "Hello, world!").count();
    assert_eq!(s.labels.len(), 1);
    assert_eq!(greetings, 1);
}

#[test]
fn many_messages_change_nothing() {
    let mut m = HelloWorld::default();
    let before = m.layout();
    for _ in 0..1000 {
        let _task = m.update(());
        assert_eq!(m, HelloWorld::default());
    }
    assert_eq!(m.layout(), before);
    assert_eq!(m.title(), "Hello World - Iced");
}

#[test]
fn view_builds_a_widget_tree() {
    let m = HelloWorld::default();
    let _first = m.view();
    let _second = m.view();
}

#[test]
fn render_accepts_an_empty_stack_and_several_labels() {
    let empty = Stack { padding: 0, labels: Vec::new() };
    let _e = hello_world::toolkit::render(&empty);
    let several = Stack {
        padding: 5,
        labels: vec![
            Label { content: String::from("a"), size: 10 },
            Label { content: String::new(), size: 0 },
        ],
    };
    let _s = hello_world::toolkit::render(&several);
}
