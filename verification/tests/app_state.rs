use forma_fractalis::app_state::{
    default_max_threads, max_threads_for, parse_interior_color, parse_u32_or_default,
    parse_u8_or_default, step_count, step_period, AnimationType, CoordinateMode, CountStep,
    ExportState, FractalType, InputState,
};
use forma_fractalis::colorschemes::ColorScheme;
use forma_fractalis::filtering::FilterType;
use forma_fractalis::fractal_gui::{start_debounce_timer, trigger_debounced_redraw};
use forma_fractalis::gpu::{RenderBackend, GPU_MAX_SAFE_ITERATIONS};
use forma_fractalis::gui::AnimationAction;

#[test]
fn fractal_type_names_and_equations() {
    assert_eq!(FractalType::Mandelbrot.as_str(), "Mandelbrot");
    assert_eq!(FractalType::BurningShip.name(), "Burning Ship");
    assert_eq!(FractalType::MultifractalJulia.as_str(), "Multifractal-Julia");
    assert_eq!(FractalType::SinJulia.as_str(), "Sin Julia");
    assert_eq!(FractalType::Julia.equation(), "z_{n+1} = z_n^2 + c");
    assert_eq!(
        FractalType::Cactus.equation(),
        "z_{n+1} = z_n^3 + (z_0 - 1)*z_n - z_0"
    );
}

#[test]
fn fractal_type_all_lists_each_type_once() {
    let all = FractalType::all();
    assert_eq!(all.len(), 12);
    assert_eq!(all[0], FractalType::Mandelbrot);
    assert_eq!(all[11], FractalType::InsideoutDragon);
    for (i, a) in all.iter().enumerate() {
        for b in &all[i + 1..] {
            assert_ne!(a, b);
            assert_ne!(a.as_str(), b.as_str());
        }
    }
}

#[test]
fn fractal_type_predicates() {
    assert!(FractalType::Julia.is_julia());
    assert!(!FractalType::Mandelbrot.is_julia());
    assert!(FractalType::Mandelbrot.is_mandelbrot());
    assert!(!FractalType::SinJulia.is_mandelbrot());
}

#[test]
fn input_state_defaults_parse() {
    let input = InputState::default();
    assert_eq!(input.width, "1280");
    assert_eq!(input.height, "720");
    assert_eq!(input.tetration_threshold, "1e7");
    assert_eq!(input.julia_coord_mode, CoordinateMode::Rectangular);
    assert_eq!(input.parse_iterations(), 256);
    assert_eq!(input.parse_period(), 128);
    assert_eq!(input.parse_export_supersample(), 4);
    assert!(input.debounce_timer.is_none());
    assert!(!input.pending_redraw);
}

#[test]
fn input_state_integer_fields_fall_back() {
    let mut input = InputState::default();
    input.iterations = "0".to_string();
    assert_eq!(input.parse_iterations(), 1);
    input.iterations = "abc".to_string();
    assert_eq!(input.parse_iterations(), 256);
    input.iterations = "+512".to_string();
    assert_eq!(input.parse_iterations(), 512);
    input.iterations = "4294967296".to_string();
    assert_eq!(input.parse_iterations(), 256);
    input.iterations = "4294967295".to_string();
    assert_eq!(input.parse_iterations(), u32::MAX);
    input.period = " 64".to_string();
    assert_eq!(input.parse_period(), 256);
    input.export_supersample = "0".to_string();
    assert_eq!(input.parse_export_supersample(), 1);
    input.export_supersample = "".to_string();
    assert_eq!(input.parse_export_supersample(), 4);
}

#[test]
fn input_state_reads_back_written_counts() {
    let mut input = InputState::default();
    for n in [1u32, 9, 10, 255, 1024, 65536, u32::MAX] {
        input.iterations = n.to_string();
        input.period = n.to_string();
        assert_eq!(input.parse_iterations(), n);
        assert_eq!(input.parse_period(), n);
    }
}

#[test]
fn export_state_new_has_no_directory_and_no_filter() {
    let state = ExportState::new();
    assert!(state.directory.is_none());
    assert_eq!(state.filter, FilterType::NoFilter);
    assert_eq!(state.filter.as_str(), "None");
}

#[test]
fn debounced_redraw_starts_timer() {
    let mut timer = None;
    let mut pending = false;
    trigger_debounced_redraw(&mut timer, &mut pending);
    assert!(timer.is_some());
    assert!(pending);
    let first = timer.unwrap();
    trigger_debounced_redraw(&mut timer, &mut pending);
    assert!(timer.unwrap() >= first);
}

#[test]
fn thread_limits() {
    assert_eq!(max_threads_for(0), 1);
    assert_eq!(max_threads_for(1), 1);
    assert_eq!(max_threads_for(2), 1);
    assert_eq!(max_threads_for(3), 1);
    assert_eq!(max_threads_for(8), 6);
    let n = default_max_threads();
    assert!(n >= 1);
    assert_eq!(n, max_threads_for(rayon::current_num_threads()));
}

#[test]
fn small_enums() {
    assert_eq!(RenderBackend::all(), vec![RenderBackend::Cpu]);
    assert_eq!(RenderBackend::default().as_str(), "CPU");
    assert_eq!(GPU_MAX_SAFE_ITERATIONS, 500_000);
    assert_eq!(ColorScheme::ALL.len(), 5);
    let names: Vec<&str> = ColorScheme::ALL.iter().map(|s| s.as_str()).collect();
    assert_eq!(names, vec!["Default", "Fire", "Ocean", "Grayscale", "Rainbow"]);
    assert_eq!(AnimationType::default(), AnimationType::Zoom);
    assert_eq!(AnimationType::IterationFade.as_str(), "Iteration Fade-In");
    assert_eq!(AnimationType::JuliaParamSweep.as_str(), "Julia Parameter Sweep");
    assert_eq!(CoordinateMode::default(), CoordinateMode::Rectangular);
    assert_ne!(AnimationAction::Start, AnimationAction::Cancel);
    assert_eq!(FilterType::default(), FilterType::NoFilter);
    let filters: Vec<&str> = FilterType::ALL.iter().map(|f| f.as_str()).collect();
    assert_eq!(filters, vec!["None", "Lanczos3", "Gaussian"]);
}

#[test]
fn step_buttons_scale_the_count() {
    assert_eq!(step_count("100", CountStep::Double), Some(200));
    assert_eq!(step_count("7", CountStep::Halve), Some(3));
    assert_eq!(step_count("+5", CountStep::TimesTen), Some(50));
    assert_eq!(step_count("1234", CountStep::DivideByTen), Some(123));
    assert_eq!(step_count("9", CountStep::DivideByTen), Some(0));
    assert_eq!(step_count("0", CountStep::Double), Some(0));
    assert_eq!(step_count("4294967295", CountStep::Halve), Some(2147483647));
}

#[test]
fn step_buttons_ignore_fields_that_do_not_read() {
    assert_eq!(step_count("abc", CountStep::Double), None);
    assert_eq!(step_count("", CountStep::Halve), None);
    assert_eq!(step_count(" 10", CountStep::TimesTen), None);
    assert_eq!(step_count("-3", CountStep::DivideByTen), None);
    assert_eq!(step_count("4294967296", CountStep::Halve), None);
}

#[test]
fn debounce_timer_restarts_at_the_given_instant() {
    let first = std::time::Instant::now();
    let mut timer = Some(first);
    let mut pending = false;
    let later = first + std::time::Duration::from_millis(250);
    start_debounce_timer(&mut timer, &mut pending, later);
    assert_eq!(timer, Some(later));
    assert!(pending);
}

#[test]
fn period_steps_stay_at_least_one() {
    assert_eq!(step_period("1", CountStep::Halve), Some(1));
    assert_eq!(step_period("1", CountStep::DivideByTen), Some(1));
    assert_eq!(step_period("0", CountStep::Halve), Some(1));
    assert_eq!(step_period("256", CountStep::Halve), Some(128));
    assert_eq!(step_period("256", CountStep::DivideByTen), Some(25));
    assert_eq!(step_period("0", CountStep::Double), Some(0));
    assert_eq!(step_period("3", CountStep::TimesTen), Some(30));
    assert_eq!(step_period("x", CountStep::Halve), None);
    // The other count fields are not raised.
    assert_eq!(step_count("1", CountStep::Halve), Some(0));
}

#[test]
fn animation_fields_read_or_keep_their_value() {
    assert_eq!(parse_u32_or_default("60", 30), 60);
    assert_eq!(parse_u32_or_default("sixty", 30), 30);
    assert_eq!(parse_u32_or_default("4294967296", 7), 7);
    assert_eq!(parse_u8_or_default("24", 10), 24);
    assert_eq!(parse_u8_or_default("255", 10), 255);
    assert_eq!(parse_u8_or_default("256", 10), 10);
    assert_eq!(parse_u8_or_default("+9", 10), 9);
    assert_eq!(parse_u8_or_default("", 10), 10);
}

#[test]
fn interior_color_channels_read_or_stay() {
    assert_eq!(parse_interior_color("255", "128", "0", [1, 2, 3]), [255, 128, 0]);
    assert_eq!(parse_interior_color("300", "x", "7", [1, 2, 3]), [1, 2, 7]);
    assert_eq!(parse_interior_color("", " 5", "-1", [9, 8, 7]), [9, 8, 7]);
}

#[test]
fn fractal_instances_carry_their_names() {
    assert_eq!(FractalType::Julia.instance_name(), "Julia Set");
    assert_eq!(FractalType::Mandelbrot.instance_name(), "Mandelbrot");
    assert_eq!(FractalType::Cactus.instance_name(), "Cactus");
    assert_eq!(FractalType::MultifractalJulia.instance_name(), "Multifractal-Julia");
    for &t in FractalType::all() {
        if t != FractalType::Julia {
            assert_eq!(t.instance_name(), t.as_str());
        }
    }
}
