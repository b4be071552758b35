use vstd::prelude::*;
use crate::components::count_square::{CountSquare, CountSquareBuilder};
use crate::components::text::Text;
use crate::error::TuiError;
use crate::event::{Event, KeyCode, KeyEvent};
use crate::primitives::square::{LineType, Square, SquareBuilder};
use crate::screen::{enter_ops, Screen};
use crate::term::{emit, move_to, ops, print, Color, Colors, Op, TermOp};
use crate::traits::{Draw, HandleEvent};

verus! {

/// What the application knows: the todos, oldest first.
#[derive(Debug)]
pub struct State {
    pub todos: Vec<String>,
}

impl Default for State {
    fn default() -> (state: Self)
        ensures
            state.texts() == Seq::<Seq<char>>::empty(),
    {
        State::new()
    }
}

/// The row in which the todo with a given index is written: rows are
/// counted in sixteen bits, so the count starts again after the last row.
pub open spec fn todo_row(index: int) -> u16 {
    (index % 0x1_0000) as u16
}

impl State {
    /// The state with no todos.
    pub fn new() -> (state: State)
        ensures
            state.texts() == Seq::<Seq<char>>::empty(),
    {
        let state = State { todos: Vec::new() };
        assert(state.texts() =~= Seq::<Seq<char>>::empty());
        state
    }

    /// The todos, each by its characters.
    pub open spec fn texts(&self) -> Seq<Seq<char>> {
        self.todos@.map_values(|todo: String| todo@)
    }

    /// The first `n` todos, each written at the start of its own row.
    pub open spec fn rows(&self, n: int) -> Seq<Op>
        decreases n,
    {
        if n <= 0 {
            Seq::empty()
        } else {
            self.rows(n - 1) + seq![
                Op::MoveTo(0, todo_row(n - 1)),
                Op::Print(self.texts()[n - 1]),
            ]
        }
    }
}

impl Draw for State {
    open spec fn rejection(&self) -> Option<TuiError> {
        None
    }

    open spec fn painted(&self) -> Seq<Op> {
        seq![Op::MoveTo(0, 0)] + self.rows(self.todos.len() as int)
    }

    /// Moves the cursor home and writes each todo at the start of the row
    /// of its index, from row 0 down. Never refuses.
    fn draw(&self, out: &mut Vec<TermOp>) -> (result: Result<(), TuiError>) {
        let ghost before = ops(out@);
        move_to(out, 0, 0);
        let mut index: usize = 0;
        while index < self.todos.len()
            invariant
                index <= self.todos.len(),
                ops(out@) == before + seq![Op::MoveTo(0, 0)] + self.rows(index as int),
            decreases self.todos.len() - index,
        {
            move_to(out, 0, (index % 0x1_0000) as u16);
            print(out, self.todos[index].as_str());
            assert(ops(out@) =~= before + seq![Op::MoveTo(0, 0)] + self.rows(index + 1));
            index = index + 1;
        }
        assert(ops(out@) =~= before + self.painted());
        Ok(())
    }
}

/// Drawing the state writes every todo at the start of the row of its
/// index: after the cursor's move home come, for the todo with index `i`,
/// the move to row `i` and the todo's text, and nothing else.
pub proof fn lemma_todo_rows(state: State, i: int)
    requires
        0 <= i < state.todos.len(),
    ensures
        state.painted().len() == 1 + 2 * state.todos.len(),
        state.painted()[0] == Op::MoveTo(0, 0),
        state.painted()[1 + 2 * i] == Op::MoveTo(0, todo_row(i)),
        state.painted()[2 + 2 * i] == Op::Print(state.texts()[i]),
{
    lemma_rows(state, state.todos.len() as int, i);
}

/// The first `n` rows hold two operations for each todo: the move to its
/// row, and its text.
proof fn lemma_rows(state: State, n: int, i: int)
    requires
        0 <= i < n <= state.todos.len(),
    ensures
        state.rows(n).len() == 2 * n,
        state.rows(n)[2 * i] == Op::MoveTo(0, todo_row(i)),
        state.rows(n)[2 * i + 1] == Op::Print(state.texts()[i]),
    decreases n,
{
    lemma_rows_len(state, n - 1);
    if i < n - 1 {
        lemma_rows(state, n - 1, i);
    }
}

/// The first `n` rows hold two operations for each todo.
proof fn lemma_rows_len(state: State, n: int)
    requires
        0 <= n,
    ensures
        state.rows(n).len() == 2 * n,
    decreases n,
{
    if n > 0 {
        lemma_rows_len(state, n - 1);
    }
}

/// A command that changes the state.
#[derive(Debug)]
pub enum TodoEvent {
    /// Append a todo with this text.
    AddTodo(String),
}

/// Whether the event loop goes on.
#[derive(Debug, Clone, Copy, PartialEq, Eq, Structural)]
pub enum Phase {
    Running,
    Terminated,
}

/// What the caller has to do after an input event, before the next frame.
#[derive(Debug, Clone, Copy, PartialEq, Eq, Structural)]
pub enum Action {
    /// Nothing: draw the next frame and read on.
    Continue,
    /// Let the user write a text in the editor, and hand it back as
    /// [`TodoEvent::AddTodo`].
    Edit,
    /// Ask the terminal for its size, and hand it to
    /// [`TodoApp::handle_resize`].
    Resize,
    /// Leave the loop and give the terminal back.
    Quit,
}

/// The todo list application: the screen, the state, the components that
/// every frame shows, and whether the loop goes on.
#[derive(Debug)]
pub struct TodoApp {
    pub screen: Screen,
    pub state: State,
    pub square: Square,
    pub text: Text<'static>,
    pub count_square: CountSquare,
    pub phase: Phase,
}

/// The colours of the application's two squares: blue on magenta.
pub open spec fn square_colors() -> Colors {
    Colors {
        foreground: Some(Color::Rgb { r: 0, g: 0, b: 255 }),
        background: Some(Color::Rgb { r: 200, g: 0, b: 200 }),
    }
}

/// One of the application's squares: filled, coloured, single-line, ten
/// cells wide and fifteen high, in row 5 and from a given column on.
pub open spec fn app_square(x: u16) -> Square {
    Square {
        line_type: LineType::Single,
        colors: Some(square_colors()),
        filled: true,
        x,
        y: 5,
        width: 10,
        height: 15,
    }
}

/// The key press is this key with no modifier held.
fn is_plain_key(key: &KeyEvent, code: KeyCode) -> (plain: bool)
    ensures
        plain == key.is_plain(code),
{
    let same = match (key.code, code) {
        (KeyCode::Esc, KeyCode::Esc) => true,
        (KeyCode::Other, KeyCode::Other) => true,
        (KeyCode::Char(a), KeyCode::Char(b)) => a == b,
        _ => false,
    };
    same && !key.modifiers.shift && !key.modifiers.control && !key.modifiers.alt
}

impl TodoApp {
    /// Takes the terminal over, with no todos yet: a plain square from
    /// column 5 on, a counting square from column 25 on and the greeting,
    /// on a screen of the size given.
    pub fn new(width: u16, height: u16, out: &mut Vec<TermOp>) -> (app: TodoApp)
        ensures
            app.screen == (Screen { width, height }),
            app.state.texts() == Seq::<Seq<char>>::empty(),
            app.square == app_square(5),
            app.text.content@ == "Hello, world!"@,
            app.text.max_length is None,
            app.text.x == 0,
            app.text.y == 0,
            app.count_square == (CountSquare { square: app_square(25), count: 0 }),
            app.phase == Phase::Running,
            ops(final(out)@) == ops(old(out)@) + enter_ops(),
    {
        let colors = Colors {
            foreground: Some(Color::Rgb { r: 0, g: 0, b: 255 }),
            background: Some(Color::Rgb { r: 200, g: 0, b: 200 }),
        };
        let screen = Screen::new(width, height, out);
        let square = SquareBuilder::new(5, 5, 10, 15).is_filled(true).with_colors(colors).build();
        let count_square = CountSquareBuilder::new().with_square(
            SquareBuilder::new(25, 5, 10, 15).is_filled(true).with_colors(colors).build(),
        ).build();
        TodoApp {
            screen,
            state: State::new(),
            square,
            text: Text::new(),
            count_square,
            phase: Phase::Running,
        }
    }

    /// Carries out a command: appends the todo to the list. Nothing else
    /// changes, and nothing is refused.
    pub fn dispatch(&mut self, event: TodoEvent) -> (result: Result<(), TuiError>)
        ensures
            result is Ok,
            match event {
                TodoEvent::AddTodo(content) => final(self).state.texts() == old(
                    self,
                ).state.texts().push(content@),
            },
            final(self).screen == old(self).screen,
            final(self).square == old(self).square,
            final(self).text == old(self).text,
            final(self).count_square == old(self).count_square,
            final(self).phase == old(self).phase,
    {
        match event {
            TodoEvent::AddTodo(content) => {
                self.state.todos.push(content);
                assert(self.state.texts() =~= old(self).state.texts().push(content@));
            },
        }
        Ok(())
    }

    /// Stores the terminal's size as it was found after a resize.
    pub fn handle_resize(&mut self, width: u16, height: u16)
        ensures
            final(self).screen == (Screen { width, height }),
            final(self).state == old(self).state,
            final(self).square == old(self).square,
            final(self).text == old(self).text,
            final(self).count_square == old(self).count_square,
            final(self).phase == old(self).phase,
    {
        self.screen.handle_resize(width, height);
    }

    /// What a running loop asks of the caller after an event: to quit on a
    /// plain escape key, to open the editor on a plain `a`, to find the
    /// terminal's size on a resize, and nothing on anything else.
    pub open spec fn action_for(event: Event) -> Action {
        match event {
            Event::Key(key) => if key.is_plain(KeyCode::Esc) {
                Action::Quit
            } else if key.is_plain(KeyCode::Char('a')) {
                Action::Edit
            } else {
                Action::Continue
            },
            Event::Resize(_, _) => Action::Resize,
            Event::Mouse(_) => Action::Continue,
        }
    }

    /// Takes one input event. A loop that has ended stays ended, whatever
    /// comes. In a running loop a plain escape key ends it, and every other
    /// event goes to the counting square, which counts it if it is a mouse
    /// button release; the result is what the caller has to do next. Where
    /// the counting square refuses the event, so does the loop, and
    /// nothing changes. The todos, the screen, the plain square and the
    /// text never change here.
    pub fn handle_event(&mut self, event: Event) -> (result: Result<Action, TuiError>)
        ensures
            final(self).screen == old(self).screen,
            final(self).state == old(self).state,
            final(self).square == old(self).square,
            final(self).text == old(self).text,
            old(self).phase == Phase::Terminated || Self::action_for(event) == Action::Quit ==> {
                &&& result == Ok::<Action, TuiError>(Action::Quit)
                &&& final(self).phase == Phase::Terminated
                &&& final(self).count_square == old(self).count_square
            },
            old(self).phase == Phase::Running && Self::action_for(event) != Action::Quit
                ==> match old(self).count_square.reaction(event) {
                Ok(after) => {
                    &&& result == Ok::<Action, TuiError>(Self::action_for(event))
                    &&& final(self).phase == Phase::Running
                    &&& final(self).count_square == after
                },
                Err(e) => {
                    &&& result == Err::<Action, TuiError>(e)
                    &&& final(self).phase == Phase::Running
                    &&& final(self).count_square == old(self).count_square
                },
            },
    {
        match self.phase {
            Phase::Terminated => {
                return Ok(Action::Quit);
            },
            Phase::Running => {},
        }
        let action = match event {
            Event::Key(key) => {
                if is_plain_key(&key, KeyCode::Esc) {
                    self.phase = Phase::Terminated;
                    return Ok(Action::Quit);
                } else if is_plain_key(&key, KeyCode::Char('a')) {
                    Action::Edit
                } else {
                    Action::Continue
                }
            },
            Event::Resize(_, _) => Action::Resize,
            Event::Mouse(_) => Action::Continue,
        };
        match self.count_square.dispatch(event) {
            Err(e) => Err(e),
            Ok(()) => Ok(action),
        }
    }
}

impl Draw for TodoApp {
    open spec fn rejection(&self) -> Option<TuiError> {
        if self.square.rejection() is Some {
            self.square.rejection()
        } else {
            self.count_square.rejection()
        }
    }

    open spec fn painted(&self) -> Seq<Op> {
        seq![Op::Clear] + self.square.painted() + self.text.painted()
            + self.count_square.painted() + self.state.painted() + seq![Op::Flush]
    }

    /// Draws one frame: clears the terminal, draws the plain square, the
    /// text and the counting square, writes the todos, and flushes.
    /// Refuses what one of the squares refuses.
    fn draw(&self, out: &mut Vec<TermOp>) -> (result: Result<(), TuiError>) {
        match self.square.validate() {
            Err(e) => {
                return Err(e);
            },
            Ok(()) => {},
        }
        match self.count_square.validate() {
            Err(e) => {
                return Err(e);
            },
            Ok(()) => {},
        }
        let ghost before = ops(out@);
        emit(out, TermOp::Clear);
        match self.square.draw(out) {
            Err(e) => {
                return Err(e);
            },
            Ok(()) => {},
        }
        match self.text.draw(out) {
            Err(e) => {
                return Err(e);
            },
            Ok(()) => {},
        }
        match self.count_square.draw(out) {
            Err(e) => {
                return Err(e);
            },
            Ok(()) => {},
        }
        match self.state.draw(out) {
            Err(e) => {
                return Err(e);
            },
            Ok(()) => {},
        }
        emit(out, TermOp::Flush);
        assert(ops(out@) =~= before + self.painted());
        Ok(())
    }
}

} // verus!
