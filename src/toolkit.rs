use vstd::prelude::*;

use crate::screen::{Label, Stack};

verus! {

#[verifier::external_type_specification]
#[verifier::external_body]
#[verifier::reject_recursive_types(T)]
pub struct ExTask<T>(iced::Task<T>);

#[verifier::external_type_specification]
#[verifier::external_body]
pub struct ExTheme(iced::Theme);

#[verifier::external_type_specification]
#[verifier::external_body]
pub struct ExRenderer(iced::Renderer);

#[verifier::external_type_specification]
#[verifier::external_body]
#[verifier::reject_recursive_types(M)]
#[verifier::reject_recursive_types(T)]
#[verifier::reject_recursive_types(R)]
pub struct ExElement<'a, M, T, R>(iced::Element<'a, M, T, R>);

#[verifier::external_type_specification]
#[verifier::external_body]
#[verifier::reject_recursive_types(M)]
#[verifier::reject_recursive_types(T)]
#[verifier::reject_recursive_types(R)]
pub struct ExColumn<'a, M, T, R>(iced::widget::Column<'a, M, T, R>);

/// Whether a task carries no work at all, so that the runtime has nothing to run for it.
pub uninterp spec fn task_is_empty(t: iced::Task<()>) -> bool;

/// Relies on iced::Task::none: the task it makes holds no stream of actions.
#[verifier::external_body]
pub(crate) fn no_task() -> (r: iced::Task<()>)
    ensures
        task_is_empty(r),
{
    iced::Task::none()
}

/// The text and font size that an element made of a single text widget draws.
pub uninterp spec fn text_drawn(e: iced::Element<'static, (), iced::Theme, iced::Renderer>) -> (
    Seq<char>,
    u16,
);

/// The texts, with their font sizes, that a column holds, top to bottom.
pub uninterp spec fn column_texts(
    c: iced::widget::Column<'static, (), iced::Theme, iced::Renderer>,
) -> Seq<(Seq<char>, u16)>;

/// The padding that a column has on each of its four sides.
pub uninterp spec fn column_padding(
    c: iced::widget::Column<'static, (), iced::Theme, iced::Renderer>,
) -> u16;

/// What an element made of a column of texts draws: its padding and its texts, top to bottom.
pub uninterp spec fn column_drawn(e: iced::Element<'static, (), iced::Theme, iced::Renderer>) -> (
    u16,
    Seq<(Seq<char>, u16)>,
);

/// Relies on iced::widget::text and iced::widget::Text::size: a text widget showing the
/// given content at the given font size, as an element of the widget tree. (iced's text widget
/// type is only named here, inside the body, because its bounds cannot be declared.)
#[verifier::external_body]
fn sized_text(content: String, size: u16) -> (r: iced::Element<'static, (), iced::Theme, iced::Renderer>)
    ensures
        text_drawn(r) == (content@, size),
{
    iced::widget::text(content).size(size).into()
}

/// Relies on iced::widget::Column::new: a column with no children.
#[verifier::external_body]
fn empty_column() -> (r: iced::widget::Column<'static, (), iced::Theme, iced::Renderer>)
    ensures
        column_texts(r) == Seq::<(Seq<char>, u16)>::empty(),
        column_padding(r) == 0,
{
    iced::widget::Column::new()
}

/// Relies on iced::widget::Column::push: the column with an element added below its children.
#[verifier::external_body]
fn column_push(
    c: iced::widget::Column<'static, (), iced::Theme, iced::Renderer>,
    child: iced::Element<'static, (), iced::Theme, iced::Renderer>,
) -> (r: iced::widget::Column<'static, (), iced::Theme, iced::Renderer>)
    ensures
        column_texts(r) == column_texts(c).push(text_drawn(child)),
        column_padding(r) == column_padding(c),
{
    c.push(child)
}

/// Relies on iced::widget::Column::padding: the column with the same padding on all four sides.
#[verifier::external_body]
fn column_padded(
    c: iced::widget::Column<'static, (), iced::Theme, iced::Renderer>,
    padding: u16,
) -> (r: iced::widget::Column<'static, (), iced::Theme, iced::Renderer>)
    ensures
        column_texts(r) == column_texts(c),
        column_padding(r) == padding,
{
    c.padding(padding)
}

/// Relies on iced's conversion of a column into an element of the widget tree.
#[verifier::external_body]
fn column_element(
    c: iced::widget::Column<'static, (), iced::Theme, iced::Renderer>,
) -> (r: iced::Element<'static, (), iced::Theme, iced::Renderer>)
    ensures
        column_drawn(r) == (column_padding(c), column_texts(c)),
{
    iced::Element::from(c)
}

/// Builds the widget tree that draws a stack: a column holding one sized text widget per
/// label, in order, with the stack's padding.
pub fn render(stack: &Stack) -> (r: iced::Element<'static, (), iced::Theme, iced::Renderer>)
    ensures
        column_drawn(r) == stack@,
{
    let mut column = empty_column();
    let n = stack.labels.len();
    let mut i: usize = 0;
    while i < n
        invariant
            n == stack.labels@.len(),
            i <= n,
            column_texts(column) == stack.labels@.subrange(0, i as int).map_values(|l: Label| l@),
        decreases n - i,
    {
        let label = &stack.labels[i];
        let child = sized_text(label.content.clone(), label.size);
        column = column_push(column, child);
        proof {
            assert(stack.labels@.subrange(0, i + 1) =~= stack.labels@.subrange(0, i as int).push(
                stack.labels@[i as int],
            ));
        }
        i = i + 1;
    }
    assert(stack.labels@.subrange(0, n as int) =~= stack.labels@);
    column_element(column_padded(column, stack.padding))
}

} // verus!
