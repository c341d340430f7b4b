use forma_fractalis::fractals::{
    BurningShip, InsideoutDragon, Julia, Lemon, Mandelbrot, MarekDragon, SinJulia, Tetration,
    TippetsMandelbrot, Zubieta,
};

#[test]
fn test_insideout_dragon_name() {
    let fractal = InsideoutDragon::new();
    assert_eq!(fractal.name(), "Insideout Dragon");
}

#[test]
fn test_lemon_name() {
    let lemon = Lemon::new();
    assert_eq!(lemon.name(), "Lemon");
}

#[test]
fn test_marek_dragon_name() {
    let fractal = MarekDragon::new();
    assert_eq!(fractal.name(), "Marek Dragon");
}

#[test]
fn test_sin_julia_name() {
    let fractal = SinJulia::new();
    assert_eq!(fractal.name(), "Sin Julia");
}

#[test]
fn test_tetration_name() {
    let fractal = Tetration::new();
    assert_eq!(fractal.name(), "Tetration");
}

#[test]
fn fractal_names() {
    assert_eq!(Mandelbrot::new().name(), "Mandelbrot");
    assert_eq!(Julia::new().name(), "Julia Set");
    assert_eq!(BurningShip::new().name(), "Burning Ship");
    assert_eq!(TippetsMandelbrot::new().name(), "Tippets Mandelbrot");
    assert_eq!(Zubieta::default().name(), "Zubieta");
}

#[test]
fn fractal_equations() {
    assert_eq!(Mandelbrot::new().equation(), "z_{n+1} = z_n^p + c");
    assert_eq!(BurningShip::new().equation(), "z_{n+1} = (|Re(z_n)| + i|Im(z_n)|)^2 + c");
    assert_eq!(Tetration::new().equation(), "z_{n+1} = c^(z_n)");
    assert_eq!(Zubieta::new().equation(), "z_{n+1} = z_n^2 + c/z_n");
    assert_eq!(SinJulia::new().equation(), "z_{n+1} = c * sin(z_n)");
    assert_eq!(MarekDragon::new().equation(), "z_{n+1} = exp(iφ)*z_n + z_n^2");
    assert_eq!(
        Lemon::new().equation(),
        "z_{n+1} = z_0 * z_n^2 * (z_n^2 + 1) / (z_n^2 - 1)^k"
    );
}

#[test]
fn test_lemon_parameters() {
    let lemon = Lemon::new();
    let params = lemon.parameter_names();
    assert_eq!(params.len(), 2);
    assert_eq!(params[0], "denom_power");
    assert_eq!(params[1], "convergence_exp");
}

#[test]
fn test_tetration_parameters() {
    let fractal = Tetration::new();
    let params = fractal.parameter_names();
    assert_eq!(params.len(), 2);
    assert_eq!(params[0], "threshold");
    assert_eq!(params[1], "escape_mode");
}

#[test]
fn test_sin_julia_parameters() {
    let fractal = SinJulia::new();
    let params = fractal.parameter_names();
    assert_eq!(params.len(), 3);
    assert!(params.iter().any(|p| *p == "c_real"));
    assert!(params.iter().any(|p| *p == "c_imag"));
    assert!(params.iter().any(|p| *p == "escape_radius"));
}

#[test]
fn parameter_names_of_every_fractal() {
    assert_eq!(Mandelbrot::new().parameter_names(), vec!["power"]);
    assert_eq!(Julia::new().parameter_names(), vec!["c_real", "c_imag"]);
    assert!(BurningShip::new().parameter_names().is_empty());
    assert!(TippetsMandelbrot::new().parameter_names().is_empty());
    assert_eq!(MarekDragon::new().parameter_names(), vec!["phi"]);
    assert_eq!(InsideoutDragon::new().parameter_names(), vec!["escape_radius"]);
    assert_eq!(Zubieta::new().parameter_names(), vec!["c_real", "c_imag"]);
}
