//! The game: one snake, one piece of food, and what each event of the
//! outside loop does to them.

use vstd::prelude::*;
use crate::direction::{Direction, Key};
use crate::food::Food;
use crate::grid::{Cell, Position};
use crate::render::{
    commands_view, fills, squares_view, Color, DrawCommand, DrawCommandView, Square,
};
use crate::snake::{Snake, SnakeView};

verus! {

/// Whether a button went down or came up.
#[derive(Clone, Copy, Debug, PartialEq, Eq, Structural)]
pub enum ButtonState {
    Press,
    Release,
}

/// What the outside loop can deliver.
#[derive(Clone, Copy, Debug, PartialEq, Eq, Structural)]
pub enum Event {
    /// A frame is due.
    Render,
    /// A tick of the simulation is due.
    Update,
    /// A button changed state.
    Button(ButtonState, Key),
    /// Anything else; the game does not react to it.
    Other,
}

/// The game as mathematics sees it.
pub struct GameView {
    pub snake: SnakeView,
    pub food: Cell,
}

impl GameView {
    /// The game is well formed when its snake is.
    pub open spec fn wf(self) -> bool {
        self.snake.wf()
    }

    /// One frame: clear to the background, then one red square for each
    /// segment of the snake in body order, then one red square for the food.
    pub open spec fn frame(self) -> Seq<DrawCommandView> {
        seq![DrawCommandView::Clear(Color::Purple)] + fills(Color::Red, self.snake.squares())
            + seq![DrawCommandView::Fill(Color::Red, self.food.food_square())]
    }

    /// The game after one tick: the snake has moved, the food has not.
    pub open spec fn ticked(self) -> GameView
        recommends
            self.wf(),
    {
        GameView { snake: self.snake.advance(), food: self.food }
    }

    /// The game after a key press: the snake is steered, nothing moves.
    pub open spec fn pressed(self, key: Key) -> GameView {
        GameView { snake: self.snake.steered(key), food: self.food }
    }

    /// The game after `event`. A tick moves the snake; a button that goes
    /// down steers it; a frame, a button that comes up and any other event
    /// leave the game as it is.
    pub open spec fn after(self, event: Event) -> GameView
        recommends
            event is Update ==> self.wf(),
    {
        match event {
            Event::Update => self.ticked(),
            Event::Button(ButtonState::Press, key) => self.pressed(key),
            _ => self,
        }
    }

    /// What is to be drawn in answer to `event`: a frame when one is due,
    /// nothing otherwise.
    pub open spec fn drawn(self, event: Event) -> Seq<DrawCommandView> {
        match event {
            Event::Render => self.frame(),
            _ => Seq::empty(),
        }
    }
}

/// The game as the program holds it.
pub struct Game {
    pub snake: Snake,
    pub food: Food,
}

impl View for Game {
    type V = GameView;

    open spec fn view(&self) -> GameView {
        GameView { snake: self.snake@, food: self.food@ }
    }
}

impl Game {
    /// The game as it starts: a snake of two segments with its head in the
    /// corner cell, heading right, and food two cells down the diagonal.
    pub fn new() -> (game: Game)
        ensures
            game@.wf(),
            game@.snake.body == seq![Cell { x: 0, y: 0 }, Cell { x: 0, y: 1 }],
            game@.snake.dir == Direction::Right,
            game@.food == (Cell { x: 2, y: 2 }),
    {
        let mut body: Vec<Position> = Vec::new();
        body.push(Position { x: 0, y: 0 });
        body.push(Position { x: 0, y: 1 });
        let snake: Snake = Snake::new(body, Direction::Right).unwrap();
        assert(snake@.body =~= seq![Cell { x: 0, y: 0 }, Cell { x: 0, y: 1 }]);
        Game { snake, food: Food { pos: Position { x: 2, y: 2 } } }
    }

    /// One frame of the game, as the commands to hand to the drawing
    /// surface, in the order in which they are to be carried out.
    pub fn render(&self) -> (commands: Vec<DrawCommand>)
        ensures
            commands_view(commands@) == self@.frame(),
    {
        let mut commands: Vec<DrawCommand> = Vec::new();
        commands.push(DrawCommand::Clear(Color::Purple));
        let squares: Vec<Square> = self.snake.render();
        let mut i: usize = 0;
        while i < squares.len()
            invariant
                i <= squares@.len(),
                commands@.len() == i + 1,
                commands@[0] == DrawCommand::Clear(Color::Purple),
                forall|k: int|
                    0 <= k < i ==> #[trigger] commands@[k + 1] == DrawCommand::Fill(
                        Color::Red,
                        squares@[k],
                    ),
            decreases squares@.len() - i,
        {
            commands.push(DrawCommand::Fill(Color::Red, squares[i]));
            i += 1;
        }
        commands.push(DrawCommand::Fill(Color::Red, self.food.render()));
        proof {
            let drawn = commands_view(commands@);
            let wanted = self@.frame();
            assert forall|k: int| 0 < k <= squares@.len() implies drawn[k] == wanted[k] by {
                assert(commands@[(k - 1) + 1] == DrawCommand::Fill(Color::Red, squares@[k - 1]));
                assert(squares_view(squares@)[k - 1] == self@.snake.squares()[k - 1]);
            }
            assert(drawn =~= wanted);
        }
        commands
    }

    /// Whether `update` may be called: whether the next tick keeps the head
    /// within what a `Position` can hold.
    pub fn can_update(&self) -> (ok: bool)
        ensures
            ok == self@.snake.can_advance(),
    {
        self.snake.can_update()
    }

    /// One tick of the simulation: the snake moves one cell.
    pub fn update(&mut self)
        requires
            old(self)@.snake.can_advance(),
        ensures
            final(self)@ == old(self)@.ticked(),
            final(self)@.wf(),
    {
        self.snake.update();
    }

    /// A key press: the snake is steered.
    pub fn pressed(&mut self, key: Key)
        ensures
            final(self)@ == old(self)@.pressed(key),
            final(self)@.wf() == old(self)@.wf(),
    {
        self.snake.pressed(key);
    }

    /// Takes one event of the outside loop: changes the game as the event
    /// asks and returns what is to be drawn, in order.
    pub fn handle(&mut self, event: Event) -> (commands: Vec<DrawCommand>)
        requires
            event is Update ==> old(self)@.snake.can_advance(),
        ensures
            final(self)@ == old(self)@.after(event),
            final(self)@.wf() == old(self)@.wf(),
            commands_view(commands@) == old(self)@.drawn(event),
    {
        match event {
            Event::Render => self.render(),
            Event::Update => {
                self.update();
                Vec::new()
            },
            Event::Button(ButtonState::Press, key) => {
                self.pressed(key);
                Vec::new()
            },
            _ => Vec::new(),
        }
    }
}

} // verus!
