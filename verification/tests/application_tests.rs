use triangle_demo::application::{AppConfig, AppPhase, Application};
use triangle_demo::commands::GlCommand;
use triangle_demo::events::{KeyAction, KeyCode, WindowEvent};
use triangle_demo::geometry::GeometryBuffer;
use triangle_demo::{SCREEN_HEIGHT, SCREEN_WIDTH};

fn running_app() -> Application {
    let config = AppConfig::new(SCREEN_WIDTH, SCREEN_HEIGHT, String::from("Learning"));
    let geometry = GeometryBuffer::initialize(1, 2, 3).unwrap();
    Application::initialize(&config, 9, geometry)
}

#[test]
fn initialize_starts_running_with_the_configured_size() {
    let app = running_app();
    assert_eq!(app.phase, AppPhase::Running);
    assert_eq!(app.window.width, 800);
    assert_eq!(app.window.height, 600);
    assert!(!app.window.should_close);
    assert_eq!(app.program, 9);
    assert!(app.should_continue());
}

#[test]
fn one_frame_issues_exactly_one_draw_of_six_u32_indices() {
    let app = running_app();
    let plan = app.frame_plan();
    let draws: Vec<&GlCommand> = plan
        .iter()
        .filter(|c| matches!(c, GlCommand::DrawIndexedTriangles { .. }))
        .collect();
    assert_eq!(draws.len(), 1);
    assert_eq!(
        *draws[0],
        GlCommand::DrawIndexedTriangles { index_count: 6, index_byte_width: 4, byte_offset: 0 }
    );
}

#[test]
fn frame_plan_is_the_exact_sequence() {
    let app = running_app();
    assert_eq!(
        app.frame_plan(),
        vec![
            GlCommand::ClearColor { red: 20, green: 30, blue: 30, alpha: 100 },
            GlCommand::ClearColorBuffer,
            GlCommand::UseProgram { program: 9 },
            GlCommand::BindVertexArray { vao: 1 },
            GlCommand::DrawIndexedTriangles { index_count: 6, index_byte_width: 4, byte_offset: 0 },
        ]
    );
}

#[test]
fn escape_in_the_queue_moves_the_application_to_closing() {
    let mut app = running_app();
    let queue = vec![WindowEvent::Key { key: KeyCode::Escape, action: KeyAction::Press }];
    app.handle_events(&queue);
    assert_eq!(app.phase, AppPhase::Closing);
    assert!(!app.should_continue());
}

#[test]
fn harmless_events_keep_the_application_running() {
    let mut app = running_app();
    let queue = vec![
        WindowEvent::OtherEvent,
        WindowEvent::Key { key: KeyCode::OtherKey, action: KeyAction::Press },
        WindowEvent::FramebufferSize { width: 400, height: 300 },
    ];
    app.handle_events(&queue);
    assert_eq!(app.phase, AppPhase::Running);
    assert!(app.should_continue());
    assert_eq!(app.window.width, 400);
    assert_eq!(app.window.height, 300);
}
