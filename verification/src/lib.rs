//! A window-state synchronization engine.
//!
//! The crate keeps a declarative record of each window's desired state
//! (title, resolution, position, decorations, cursor behaviour, fullscreen
//! mode, focus, lifecycle) consistent with an imperative native windowing
//! backend, translates backend events into typed domain events and record
//! mutations, and owns the scheduling policy that decides when application
//! logic runs.
//!
//! The native backend and the entity-component substrate are external
//! collaborators: the library never performs I/O itself.  It plans backend
//! calls as plain command values and consumes backend events as plain event
//! values, so every decision the engine makes is stated in a contract and
//! proved.

pub mod command;
pub mod entity;
pub mod event;
pub mod geometry;
pub mod monitor;
pub mod registry;
pub mod scheduler;
pub mod sync;
pub mod system;
pub mod translator;
pub mod window;
pub mod world;

pub use command::BackendCommand;
pub use entity::Entity;
pub use event::CursorEntered;
pub use event::CursorLeft;
pub use event::CursorMoved;
pub use event::DomainEvent;
pub use event::FileDragAndDrop;
pub use event::KeyboardInput;
pub use event::MouseButton;
pub use event::MouseButtonInput;
pub use event::MouseScrollUnit;
pub use event::MouseWheel;
pub use event::ReceivedCharacter;
pub use event::RequestRedraw;
pub use event::TouchInput;
pub use event::TouchPhase;
pub use event::WindowBackendScaleFactorChanged;
pub use event::WindowCloseRequested;
pub use event::WindowClosed;
pub use event::WindowCreated;
pub use event::WindowFocused;
pub use event::WindowMoved;
pub use event::WindowResized;
pub use event::WindowScaleFactorChanged;
pub use geometry::IVec2;
pub use geometry::LogicalPoint;
pub use geometry::LogicalPx;
pub use geometry::PhysicalPoint;
pub use geometry::ScaleFactor;
pub use monitor::Monitor;
pub use monitor::VideoMode;
pub use monitor::get_best_videomode;
pub use monitor::get_fitting_videomode;
pub use registry::FullscreenPlan;
pub use registry::WindowCreationPlan;
pub use registry::WinitWindows;
pub use registry::plan_window_creation;
pub use registry::winit_window_position;
pub use scheduler::LoopFlow;
pub use scheduler::UpdateMode;
pub use scheduler::WinitPersistentState;
pub use scheduler::WinitSettings;
pub use sync::update_cursor;
pub use sync::update_cursor_position;
pub use sync::update_resize_constraints;
pub use sync::update_resolution;
pub use sync::update_title;
pub use sync::update_window_mode;
pub use sync::update_window_position;
pub use sync::update_window_state;
pub use system::ExitCondition;
pub use system::WindowSettings;
pub use system::build_window_world;
pub use system::close_on_esc;
pub use system::close_when_requested;
pub use system::close_window;
pub use system::create_window;
pub use system::exit_on_all_closed;
pub use system::exit_on_primary_closed;
pub use system::exit_requested;
pub use system::finalize_closing;
pub use translator::BackendWindowEvent;
pub use translator::TranslationOutcome;
pub use translator::handle_window_event;
pub use translator::translate_backend_event;
pub use window::Cursor;
pub use window::CursorIcon;
pub use window::CursorPosition;
pub use window::MonitorSelection;
pub use window::PresentMode;
pub use window::Window;
pub use window::WindowCanvas;
pub use window::WindowDecorations;
pub use window::WindowFocus;
pub use window::WindowHandle;
pub use window::WindowMode;
pub use window::WindowPosition;
pub use window::WindowResizable;
pub use window::WindowResizeConstraints;
pub use window::WindowResolution;
pub use window::WindowState;
pub use window::WindowTitle;
pub use window::WindowTransparency;
pub use world::ChangeFlags;
pub use world::PrimaryWindow;
pub use world::WindowBundle;
pub use world::WindowLifecycle;
pub use world::WindowRecord;
pub use world::WindowWorld;
