use snake_game::direction::{Direction, Key};
use snake_game::food::Food;
use snake_game::game::{ButtonState, Event, Game};
use snake_game::grid::Position;
use snake_game::render::{Color, DrawCommand, Square, CELL_SIZE, FOOD_INSET, FOOD_SIZE};
use snake_game::snake::Snake;

fn at(x: i32, y: i32) -> Position {
    Position { x, y }
}

fn square(x: i64, y: i64, size: i64) -> Square {
    Square { x, y, size }
}

#[test]
fn sizes_are_twenty_ten_and_five() {
    assert_eq!(CELL_SIZE, 20);
    assert_eq!(FOOD_SIZE, 10);
    assert_eq!(FOOD_INSET, 5);
    assert_eq!(FOOD_INSET + FOOD_SIZE + FOOD_INSET, CELL_SIZE);
}

#[test]
fn scenario_food_at_two_two() {
    let food = Food { pos: at(2, 2) };
    assert_eq!(food.render(), square(45, 45, 10));
}

#[test]
fn food_square_sits_inside_its_cell() {
    assert_eq!(Food { pos: at(0, 0) }.render(), square(5, 5, 10));
    assert_eq!(Food { pos: at(9, 0) }.render(), square(185, 5, 10));
    assert_eq!(Food { pos: at(-1, -3) }.render(), square(-15, -55, 10));
    assert_eq!(at(7, 1).food_square(), square(145, 25, 10));
}

#[test]
fn segment_square_covers_its_cell() {
    assert_eq!(at(0, 0).segment_square(), square(0, 0, 20));
    assert_eq!(at(3, 7).segment_square(), square(60, 140, 20));
    assert_eq!(at(-2, 9).segment_square(), square(-40, 180, 20));
}

#[test]
fn squares_of_the_farthest_cells_are_exact() {
    assert_eq!(
        at(i32::MAX, i32::MIN).segment_square(),
        square(42_949_672_940, -42_949_672_960, 20)
    );
    assert_eq!(
        at(i32::MIN, i32::MAX).food_square(),
        square(-42_949_672_955, 42_949_672_945, 10)
    );
}

#[test]
fn snake_renders_one_square_per_segment_in_body_order() {
    let snake = Snake::new(vec![at(1, 0), at(0, 0), at(0, 1), at(-1, 1)], Direction::Right)
        .expect("four segments");
    assert_eq!(
        snake.render(),
        vec![square(20, 0, 20), square(0, 0, 20), square(0, 20, 20), square(-20, 20, 20)]
    );
}

#[test]
fn render_gives_the_same_squares_every_time() {
    let body = vec![at(4, 4), at(4, 5), at(5, 5)];
    let snake = Snake::new(body.clone(), Direction::Up).expect("three segments");
    let first = snake.render();
    assert_eq!(snake.render(), first);
    let twin = Snake::new(body.clone(), Direction::Up).expect("three segments");
    assert_eq!(twin.render(), first);
    let turned = Snake::new(body, Direction::Left).expect("three segments");
    assert_eq!(turned.render(), first);
    assert_eq!(snake.body(), vec![at(4, 4), at(4, 5), at(5, 5)]);
}

#[test]
fn render_repeats_a_cell_that_the_body_crosses_twice() {
    let snake = Snake::new(vec![at(1, 1), at(2, 1), at(1, 1)], Direction::Up).expect("three segments");
    assert_eq!(snake.render(), vec![square(20, 20, 20), square(40, 20, 20), square(20, 20, 20)]);
}

#[test]
fn frame_clears_then_fills_snake_then_food() {
    let game = Game::new();
    assert_eq!(
        game.render(),
        vec![
            DrawCommand::Clear(Color::Purple),
            DrawCommand::Fill(Color::Red, square(0, 0, 20)),
            DrawCommand::Fill(Color::Red, square(0, 20, 20)),
            DrawCommand::Fill(Color::Red, square(45, 45, 10)),
        ]
    );
}

#[test]
fn frame_follows_the_snake() {
    let mut game = Game::new();
    game.update();
    game.pressed(Key::Down);
    game.update();
    assert_eq!(
        game.render(),
        vec![
            DrawCommand::Clear(Color::Purple),
            DrawCommand::Fill(Color::Red, square(20, 20, 20)),
            DrawCommand::Fill(Color::Red, square(20, 0, 20)),
            DrawCommand::Fill(Color::Red, square(45, 45, 10)),
        ]
    );
}

#[test]
fn frame_of_a_long_snake_has_a_command_per_segment() {
    let body: Vec<Position> = (0..50).map(|i| at(i, 3)).collect();
    let snake = Snake::new(body, Direction::Left).expect("fifty segments");
    let game = Game { snake, food: Food { pos: at(9, 9) } };
    let frame = game.render();
    assert_eq!(frame.len(), 52);
    assert_eq!(frame[0], DrawCommand::Clear(Color::Purple));
    for i in 0..50 {
        assert_eq!(frame[i + 1], DrawCommand::Fill(Color::Red, square(20 * i as i64, 60, 20)));
    }
    assert_eq!(frame[51], DrawCommand::Fill(Color::Red, square(185, 185, 10)));
}

#[test]
fn handle_render_draws_and_changes_nothing() {
    let mut game = Game::new();
    let frame = game.handle(Event::Render);
    assert_eq!(frame, Game::new().render());
    assert_eq!(game.snake.body(), vec![at(0, 0), at(0, 1)]);
    assert_eq!(game.snake.direction(), Direction::Right);
    assert_eq!(game.food.pos, at(2, 2));
}

#[test]
fn handle_update_ticks_and_draws_nothing() {
    let mut game = Game::new();
    assert_eq!(game.handle(Event::Update), Vec::new());
    assert_eq!(game.snake.body(), vec![at(1, 0), at(0, 0)]);
    assert_eq!(game.snake.direction(), Direction::Right);
}

#[test]
fn handle_press_steers_and_draws_nothing() {
    let mut game = Game::new();
    assert_eq!(game.handle(Event::Button(ButtonState::Press, Key::Down)), Vec::new());
    assert_eq!(game.snake.direction(), Direction::Down);
    assert_eq!(game.snake.body(), vec![at(0, 0), at(0, 1)]);
    assert_eq!(game.handle(Event::Button(ButtonState::Press, Key::Up)), Vec::new());
    assert_eq!(game.snake.direction(), Direction::Down);
    assert_eq!(game.handle(Event::Button(ButtonState::Press, Key::Other)), Vec::new());
    assert_eq!(game.snake.direction(), Direction::Down);
}

#[test]
fn handle_ignores_releases_and_other_events() {
    let mut game = Game::new();
    for key in [Key::Up, Key::Down, Key::Left, Key::Right, Key::Other] {
        assert_eq!(game.handle(Event::Button(ButtonState::Release, key)), Vec::new());
        assert_eq!(game.snake.direction(), Direction::Right);
    }
    assert_eq!(game.handle(Event::Other), Vec::new());
    assert_eq!(game.snake.body(), vec![at(0, 0), at(0, 1)]);
    assert_eq!(game.snake.direction(), Direction::Right);
    assert_eq!(game.food.pos, at(2, 2));
}

#[test]
fn handle_plays_the_scenario() {
    let mut game = Game::new();
    game.handle(Event::Update);
    game.handle(Event::Button(ButtonState::Press, Key::Up));
    game.handle(Event::Button(ButtonState::Release, Key::Up));
    game.handle(Event::Update);
    assert_eq!(game.snake.body(), vec![at(1, -1), at(1, 0)]);
    assert_eq!(
        game.handle(Event::Render),
        vec![
            DrawCommand::Clear(Color::Purple),
            DrawCommand::Fill(Color::Red, square(20, -20, 20)),
            DrawCommand::Fill(Color::Red, square(20, 0, 20)),
            DrawCommand::Fill(Color::Red, square(45, 45, 10)),
        ]
    );
}
