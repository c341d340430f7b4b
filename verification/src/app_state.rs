//! Application state that the explorer keeps on plain values: the fractal
//! catalogue, the text inputs of the side panel and the export settings.

use vstd::prelude::*;
use std::path::PathBuf;
use std::time::Instant;
use crate::filtering::FilterType;
use crate::text::{chars_of, parse_u32_chars, parse_unsigned_chars, parse_decimal};
use crate::fractals::{
    BurningShip, InsideoutDragon, Julia, Lemon, Mandelbrot, MarekDragon, SinJulia, Tetration,
    TippetsMandelbrot, Zubieta,
};

verus! {

/// Coordinate input mode for complex parameters.
#[derive(Debug, Clone, Copy, PartialEq, Eq, Structural)]
pub enum CoordinateMode {
    Rectangular,
    Polar,
}

impl Default for CoordinateMode {
    fn default() -> (r: Self)
        ensures
            r == CoordinateMode::Rectangular,
    {
        CoordinateMode::Rectangular
    }
}

/// The kinds of fractal the explorer can render.
#[derive(Debug, Clone, Copy, PartialEq, Eq, Structural)]
pub enum FractalType {
    Mandelbrot,
    Julia,
    BurningShip,
    TippetsMandelbrot,
    MultifractalJulia,
    Cactus,
    MarekDragon,
    Tetration,
    Lemon,
    InsideoutDragon,
    Zubieta,
    SinJulia,
}

/// The fractal types in the order the fractal selector lists them.
pub open spec fn all_fractal_types() -> Seq<FractalType> {
    seq![
        FractalType::Mandelbrot,
        FractalType::Julia,
        FractalType::BurningShip,
        FractalType::TippetsMandelbrot,
        FractalType::MultifractalJulia,
        FractalType::Cactus,
        FractalType::MarekDragon,
        FractalType::Tetration,
        FractalType::Lemon,
        FractalType::Zubieta,
        FractalType::SinJulia,
        FractalType::InsideoutDragon,
    ]
}

impl FractalType {
    /// The display name of the fractal type.
    pub open spec fn spec_name(self) -> Seq<char> {
        match self {
            FractalType::Mandelbrot => "Mandelbrot"@,
            FractalType::Julia => "Julia"@,
            FractalType::BurningShip => "Burning Ship"@,
            FractalType::TippetsMandelbrot => "Tippets Mandelbrot"@,
            FractalType::MultifractalJulia => "Multifractal-Julia"@,
            FractalType::Cactus => "Cactus"@,
            FractalType::MarekDragon => "Marek Dragon"@,
            FractalType::Tetration => "Tetration"@,
            FractalType::Lemon => "Lemon"@,
            FractalType::InsideoutDragon => "Insideout Dragon"@,
            FractalType::Zubieta => "Zubieta"@,
            FractalType::SinJulia => "Sin Julia"@,
        }
    }

    /// The iteration formula of the fractal type.
    pub open spec fn spec_equation(self) -> Seq<char> {
        match self {
            FractalType::Mandelbrot => "z_{n+1} = z_n^p + c"@,
            FractalType::Julia => "z_{n+1} = z_n^2 + c"@,
            FractalType::BurningShip => "z_{n+1} = (|Re(z_n)| + i|Im(z_n)|)^2 + c"@,
            FractalType::TippetsMandelbrot => "z_{n+1} = z_n^2 + c*z_n + c"@,
            FractalType::MultifractalJulia => "z_{n+1} = c^k * z_n^(-2) + c"@,
            FractalType::Cactus => "z_{n+1} = z_n^3 + (z_0 - 1)*z_n - z_0"@,
            FractalType::MarekDragon => "z_{n+1} = exp(iφ)*z_n + z_n^2"@,
            FractalType::Tetration => "z_{n+1} = c^(z_n)"@,
            FractalType::Lemon => "z_{n+1} = z_0 * z_n^2 * (z_n^2 + 1) / (z_n^2 - 1)^k"@,
            FractalType::InsideoutDragon => "z_{n+1} = z_n^2 + f(|z_n|) + i*g(|z_n|), z_0 = 1/c"@,
            FractalType::Zubieta => "z_{n+1} = z_n^2 + c/z_n"@,
            FractalType::SinJulia => "z_{n+1} = c * sin(z_n)"@,
        }
    }

    pub fn as_str(&self) -> (r: &'static str)
        ensures
            r@ == self.spec_name(),
    {
        match self {
            FractalType::Mandelbrot => "Mandelbrot",
            FractalType::Julia => "Julia",
            FractalType::BurningShip => "Burning Ship",
            FractalType::TippetsMandelbrot => "Tippets Mandelbrot",
            FractalType::MultifractalJulia => "Multifractal-Julia",
            FractalType::Cactus => "Cactus",
            FractalType::MarekDragon => "Marek Dragon",
            FractalType::Tetration => "Tetration",
            FractalType::Lemon => "Lemon",
            FractalType::InsideoutDragon => "Insideout Dragon",
            FractalType::Zubieta => "Zubieta",
            FractalType::SinJulia => "Sin Julia",
        }
    }

    pub fn name(&self) -> (r: &'static str)
        ensures
            r@ == self.spec_name(),
    {
        self.as_str()
    }

    /// The name that this type's fractal carries (and that exports write):
    /// the type's own name, except "Julia Set" for Julia.
    pub open spec fn spec_instance_name(self) -> Seq<char> {
        if self == FractalType::Julia {
            "Julia Set"@
        } else {
            self.spec_name()
        }
    }

    pub fn instance_name(&self) -> (r: &'static str)
        ensures
            r@ == self.spec_instance_name(),
    {
        match self {
            FractalType::Mandelbrot => Mandelbrot::new().name(),
            FractalType::Julia => Julia::new().name(),
            FractalType::BurningShip => BurningShip::new().name(),
            FractalType::TippetsMandelbrot => TippetsMandelbrot::new().name(),
            FractalType::MultifractalJulia => "Multifractal-Julia",
            FractalType::Cactus => "Cactus",
            FractalType::MarekDragon => MarekDragon::new().name(),
            FractalType::Tetration => Tetration::new().name(),
            FractalType::Lemon => Lemon::new().name(),
            FractalType::InsideoutDragon => InsideoutDragon::new().name(),
            FractalType::Zubieta => Zubieta::new().name(),
            FractalType::SinJulia => SinJulia::new().name(),
        }
    }

    /// Get the mathematical equation for this fractal type.
    pub fn equation(&self) -> (r: &'static str)
        ensures
            r@ == self.spec_equation(),
    {
        match self {
            FractalType::Mandelbrot => "z_{n+1} = z_n^p + c",
            FractalType::Julia => "z_{n+1} = z_n^2 + c",
            FractalType::BurningShip => "z_{n+1} = (|Re(z_n)| + i|Im(z_n)|)^2 + c",
            FractalType::TippetsMandelbrot => "z_{n+1} = z_n^2 + c*z_n + c",
            FractalType::MultifractalJulia => "z_{n+1} = c^k * z_n^(-2) + c",
            FractalType::Cactus => "z_{n+1} = z_n^3 + (z_0 - 1)*z_n - z_0",
            FractalType::MarekDragon => "z_{n+1} = exp(iφ)*z_n + z_n^2",
            FractalType::Tetration => "z_{n+1} = c^(z_n)",
            FractalType::Lemon => "z_{n+1} = z_0 * z_n^2 * (z_n^2 + 1) / (z_n^2 - 1)^k",
            FractalType::InsideoutDragon => "z_{n+1} = z_n^2 + f(|z_n|) + i*g(|z_n|), z_0 = 1/c",
            FractalType::Zubieta => "z_{n+1} = z_n^2 + c/z_n",
            FractalType::SinJulia => "z_{n+1} = c * sin(z_n)",
        }
    }

    /// Every fractal type, in the order the fractal selector lists them.
    pub fn all() -> (r: &'static [FractalType])
        ensures
            r@ == all_fractal_types(),
    {
        let r: &'static [FractalType] = &[
            FractalType::Mandelbrot,
            FractalType::Julia,
            FractalType::BurningShip,
            FractalType::TippetsMandelbrot,
            FractalType::MultifractalJulia,
            FractalType::Cactus,
            FractalType::MarekDragon,
            FractalType::Tetration,
            FractalType::Lemon,
            FractalType::Zubieta,
            FractalType::SinJulia,
            FractalType::InsideoutDragon,
        ];
        assert(r@ =~= all_fractal_types());
        r
    }

    pub fn is_julia(&self) -> (r: bool)
        ensures
            r == (*self == FractalType::Julia),
    {
        matches!(self, FractalType::Julia)
    }

    pub fn is_mandelbrot(&self) -> (r: bool)
        ensures
            r == (*self == FractalType::Mandelbrot),
    {
        matches!(self, FractalType::Mandelbrot)
    }
}

/// Length and first character of each fractal type's name; no two names
/// agree in both.
pub proof fn lemma_fractal_type_name_texts()
    ensures
        "Mandelbrot"@.len() == 10 && "Mandelbrot"@[0] == 'M',
        "Julia"@.len() == 5 && "Julia"@[0] == 'J',
        "Burning Ship"@.len() == 12 && "Burning Ship"@[0] == 'B',
        "Tippets Mandelbrot"@.len() == 18 && "Tippets Mandelbrot"@[0] == 'T',
        "Multifractal-Julia"@.len() == 18 && "Multifractal-Julia"@[0] == 'M',
        "Cactus"@.len() == 6 && "Cactus"@[0] == 'C',
        "Marek Dragon"@.len() == 12 && "Marek Dragon"@[0] == 'M',
        "Tetration"@.len() == 9 && "Tetration"@[0] == 'T',
        "Lemon"@.len() == 5 && "Lemon"@[0] == 'L',
        "Insideout Dragon"@.len() == 16 && "Insideout Dragon"@[0] == 'I',
        "Zubieta"@.len() == 7 && "Zubieta"@[0] == 'Z',
        "Sin Julia"@.len() == 9 && "Sin Julia"@[0] == 'S',
{
    reveal_strlit("Mandelbrot");
    reveal_strlit("Julia");
    reveal_strlit("Burning Ship");
    reveal_strlit("Tippets Mandelbrot");
    reveal_strlit("Multifractal-Julia");
    reveal_strlit("Cactus");
    reveal_strlit("Marek Dragon");
    reveal_strlit("Tetration");
    reveal_strlit("Lemon");
    reveal_strlit("Insideout Dragon");
    reveal_strlit("Zubieta");
    reveal_strlit("Sin Julia");
}

/// Each fractal type shows the iteration formula of its own fractal.
pub proof fn lemma_fractal_type_equations()
    ensures
        FractalType::Mandelbrot.spec_equation() == Mandelbrot.spec_equation(),
        FractalType::BurningShip.spec_equation() == BurningShip.spec_equation(),
        FractalType::MarekDragon.spec_equation() == MarekDragon.spec_equation(),
        FractalType::Tetration.spec_equation() == Tetration.spec_equation(),
        FractalType::Lemon.spec_equation() == Lemon.spec_equation(),
        FractalType::Zubieta.spec_equation() == Zubieta.spec_equation(),
        FractalType::SinJulia.spec_equation() == SinJulia.spec_equation(),
{
}

/// Each fractal type has a name of its own.
pub proof fn lemma_fractal_type_names_distinct(a: FractalType, b: FractalType)
    ensures
        a.spec_name() == b.spec_name() ==> a == b,
{
    lemma_fractal_type_name_texts();
}

/// The fractal selector lists every fractal type, each once.
pub proof fn lemma_all_fractal_types(t: FractalType)
    ensures
        all_fractal_types().contains(t),
        forall|i: int, j: int|
            0 <= i < j < all_fractal_types().len() ==> all_fractal_types()[i]
                != all_fractal_types()[j],
{
    let s = all_fractal_types();
    let i: int = match t {
        FractalType::Mandelbrot => 0,
        FractalType::Julia => 1,
        FractalType::BurningShip => 2,
        FractalType::TippetsMandelbrot => 3,
        FractalType::MultifractalJulia => 4,
        FractalType::Cactus => 5,
        FractalType::MarekDragon => 6,
        FractalType::Tetration => 7,
        FractalType::Lemon => 8,
        FractalType::Zubieta => 9,
        FractalType::SinJulia => 10,
        FractalType::InsideoutDragon => 11,
    };
    assert(s[i] == t);
}

/// Text contents of the side panel's input fields, with the debounce state
/// of the redraw they trigger.
pub struct InputState {
    pub width: String,
    pub height: String,
    pub iterations: String,
    pub julia_c_real: String,
    pub julia_c_imag: String,
    pub julia_magnitude: String,
    pub julia_angle: String,
    pub julia_coord_mode: CoordinateMode,
    pub mandelbrot_power: String,
    pub multifractal_julia_power: String,
    pub marek_dragon_phi: String,
    pub tetration_threshold: String,
    pub lemon_convergence_exp: String,
    pub lemon_denom_power: String,
    pub insideout_dragon_escape_radius: String,
    pub zubieta_c_real: String,
    pub zubieta_c_imag: String,
    pub zubieta_magnitude: String,
    pub zubieta_angle: String,
    pub zubieta_coord_mode: CoordinateMode,
    pub sin_julia_c_real: String,
    pub sin_julia_c_imag: String,
    pub sin_julia_magnitude: String,
    pub sin_julia_angle: String,
    pub sin_julia_coord_mode: CoordinateMode,
    pub sin_julia_escape_radius: String,
    pub period: String,
    pub export_scale: String,
    pub export_supersample: String,
    /// When the last keystroke restarted the debounce timer.
    pub debounce_timer: Option<Instant>,
    /// A redraw waits for the debounce timer to run out.
    pub pending_redraw: bool,
}

impl Default for InputState {
    fn default() -> (r: Self)
        ensures
            r.width@ == "1280"@,
            r.height@ == "720"@,
            r.iterations@ == "256"@,
            r.julia_c_real@ == "0.0"@,
            r.julia_c_imag@ == "0.0"@,
            r.julia_magnitude@ == "0.0"@,
            r.julia_angle@ == "0.0"@,
            r.julia_coord_mode == CoordinateMode::Rectangular,
            r.mandelbrot_power@ == "2.0"@,
            r.multifractal_julia_power@ == "1.0"@,
            r.marek_dragon_phi@ == "0.0"@,
            r.tetration_threshold@ == "1e7"@,
            r.lemon_convergence_exp@ == "6"@,
            r.lemon_denom_power@ == "2.0"@,
            r.insideout_dragon_escape_radius@ == "4.0"@,
            r.zubieta_c_real@ == "0.0"@,
            r.zubieta_c_imag@ == "0.8"@,
            r.zubieta_magnitude@ == "0.8"@,
            r.zubieta_angle@ == "1.5707963267949"@,
            r.zubieta_coord_mode == CoordinateMode::Rectangular,
            r.sin_julia_c_real@ == "1.0"@,
            r.sin_julia_c_imag@ == "0.1"@,
            r.sin_julia_magnitude@ == "1.0049875621120890"@,
            r.sin_julia_angle@ == "0.09966865249116204"@,
            r.sin_julia_coord_mode == CoordinateMode::Rectangular,
            r.sin_julia_escape_radius@ == "50.0"@,
            r.period@ == "128"@,
            r.export_scale@ == "3.0"@,
            r.export_supersample@ == "4"@,
            r.debounce_timer is None,
            !r.pending_redraw,
    {
        InputState {
            width: "1280".to_owned(),
            height: "720".to_owned(),
            iterations: "256".to_owned(),
            julia_c_real: "0.0".to_owned(),
            julia_c_imag: "0.0".to_owned(),
            julia_magnitude: "0.0".to_owned(),
            julia_angle: "0.0".to_owned(),
            julia_coord_mode: CoordinateMode::default(),
            mandelbrot_power: "2.0".to_owned(),
            multifractal_julia_power: "1.0".to_owned(),
            marek_dragon_phi: "0.0".to_owned(),
            tetration_threshold: "1e7".to_owned(),
            lemon_convergence_exp: "6".to_owned(),
            lemon_denom_power: "2.0".to_owned(),
            insideout_dragon_escape_radius: "4.0".to_owned(),
            zubieta_c_real: "0.0".to_owned(),
            zubieta_c_imag: "0.8".to_owned(),
            zubieta_magnitude: "0.8".to_owned(),
            zubieta_angle: "1.5707963267949".to_owned(),
            zubieta_coord_mode: CoordinateMode::default(),
            sin_julia_c_real: "1.0".to_owned(),
            sin_julia_c_imag: "0.1".to_owned(),
            sin_julia_magnitude: "1.0049875621120890".to_owned(),
            sin_julia_angle: "0.09966865249116204".to_owned(),
            sin_julia_coord_mode: CoordinateMode::default(),
            sin_julia_escape_radius: "50.0".to_owned(),
            period: "128".to_owned(),
            export_scale: "3.0".to_owned(),
            export_supersample: "4".to_owned(),
            debounce_timer: None,
            pending_redraw: false,
        }
    }
}

/// The value that a decimal text field gives for an unsigned integer of at
/// most `max`: what `parse` returns, or `default` where it fails.
pub open spec fn decimal_or(s: Seq<char>, max: nat, default: nat) -> nat {
    match parse_decimal(s, max) {
        Some(v) => v,
        None => default,
    }
}

pub open spec fn at_least_one(v: nat) -> nat {
    if v >= 1 {
        v
    } else {
        1
    }
}

fn parse_u32_or(s: &String, default: u32) -> (r: u32)
    ensures
        r == decimal_or(s@, u32::MAX as nat, default as nat),
{
    parse_u32_or_default(s.as_str(), default)
}

/// `text.parse::<u32>()`, or `default` where the text does not read (the
/// frame count and iteration range of the animation panel).
pub fn parse_u32_or_default(text: &str, default: u32) -> (r: u32)
    ensures
        r == decimal_or(text@, u32::MAX as nat, default as nat),
{
    let v = chars_of(text);
    match parse_u32_chars(&v) {
        Some(x) => x,
        None => default,
    }
}

/// `text.parse::<u8>()`, or `default` where the text does not read (the
/// frame rate of the animation panel, a channel of the interior colour).
pub fn parse_u8_or_default(text: &str, default: u8) -> (r: u8)
    ensures
        r == decimal_or(text@, u8::MAX as nat, default as nat),
{
    let v = chars_of(text);
    match parse_unsigned_chars(&v, 10, 255) {
        Some(x) => x as u8,
        None => default,
    }
}

/// The interior colour after its three channel fields are read: each channel
/// is the field read as a `u8`, or stays as it was where the field does not
/// read.
pub fn parse_interior_color(red: &str, green: &str, blue: &str, current: [u8; 3]) -> (r: [u8; 3])
    ensures
        r[0] == decimal_or(red@, u8::MAX as nat, current[0] as nat),
        r[1] == decimal_or(green@, u8::MAX as nat, current[1] as nat),
        r[2] == decimal_or(blue@, u8::MAX as nat, current[2] as nat),
{
    [
        parse_u8_or_default(red, current[0]),
        parse_u8_or_default(green, current[1]),
        parse_u8_or_default(blue, current[2]),
    ]
}

impl InputState {
    /// Maximum iteration count: the field read as a `u32`, 256 where it does
    /// not read, and never below 1.
    pub fn parse_iterations(&self) -> (r: u32)
        ensures
            r == at_least_one(decimal_or(self.iterations@, u32::MAX as nat, 256)),
    {
        let v = parse_u32_or(&self.iterations, 256);
        if v >= 1 {
            v
        } else {
            1
        }
    }

    /// Colour period: the field read as a `u32`, 256 where it does not read.
    pub fn parse_period(&self) -> (r: u32)
        ensures
            r == decimal_or(self.period@, u32::MAX as nat, 256),
    {
        parse_u32_or(&self.period, 256)
    }

    /// Supersample factor: the field read as a `u32`, 4 where it does not
    /// read, and never below 1.
    pub fn parse_export_supersample(&self) -> (r: u32)
        ensures
            r == at_least_one(decimal_or(self.export_supersample@, u32::MAX as nat, 4)),
    {
        let v = parse_u32_or(&self.export_supersample, 4);
        if v >= 1 {
            v
        } else {
            1
        }
    }
}

/// A path of the file system (`std::path::PathBuf`), carried through unread.
#[verifier::external_type_specification]
#[verifier::external_body]
pub struct ExPathBuf(PathBuf);

/// Export configuration: where images go and how they are downsampled.
pub struct ExportState {
    /// Output directory; the working directory where it is `None`.
    pub directory: Option<PathBuf>,
    pub filter: FilterType,
}

impl Default for ExportState {
    fn default() -> (r: Self)
        ensures
            r.directory is None,
            r.filter == FilterType::NoFilter,
    {
        ExportState { directory: None, filter: FilterType::NoFilter }
    }
}

impl ExportState {
    pub fn new() -> (r: Self)
        ensures
            r.directory is None,
            r.filter == FilterType::NoFilter,
    {
        Self::default()
    }
}

/// Kind of animation that the animation panel generates.
#[derive(Debug, Clone, Copy, PartialEq, Eq, Structural)]
pub enum AnimationType {
    Zoom,
    JuliaParamSweep,
    IterationFade,
}

impl Default for AnimationType {
    fn default() -> (r: Self)
        ensures
            r == AnimationType::Zoom,
    {
        AnimationType::Zoom
    }
}

impl AnimationType {
    pub open spec fn spec_name(self) -> Seq<char> {
        match self {
            AnimationType::Zoom => "Zoom Sequence"@,
            AnimationType::JuliaParamSweep => "Julia Parameter Sweep"@,
            AnimationType::IterationFade => "Iteration Fade-In"@,
        }
    }

    pub fn as_str(&self) -> (r: &'static str)
        ensures
            r@ == self.spec_name(),
    {
        match self {
            AnimationType::Zoom => "Zoom Sequence",
            AnimationType::JuliaParamSweep => "Julia Parameter Sweep",
            AnimationType::IterationFade => "Iteration Fade-In",
        }
    }
}

/// `rayon::current_num_threads()`: the number of threads of the current
/// rayon pool. Nothing is stated of it; it depends on the machine.
#[verifier::external_body]
fn current_num_threads() -> usize {
    rayon::current_num_threads()
}

/// The thread limit that rendering defaults to on a pool of `available`
/// threads: two fewer, leaving headroom for the interface, but at least one.
pub fn max_threads_for(available: usize) -> (r: usize)
    ensures
        r == if available >= 3 {
            available - 2
        } else {
            1
        },
{
    let v = available.saturating_sub(2);
    if v >= 1 {
        v
    } else {
        1
    }
}

/// Default thread limit for CPU rendering, from the size of the rayon pool.
pub fn default_max_threads() -> (r: usize)
    ensures
        r >= 1,
{
    max_threads_for(current_num_threads())
}

/// The step buttons next to a count field of the side panel (width, height,
/// iterations and colour period).
#[derive(Debug, Clone, Copy, PartialEq, Eq, Structural)]
pub enum CountStep {
    Double,
    Halve,
    TimesTen,
    DivideByTen,
}

pub open spec fn step_count_value(v: nat, step: CountStep) -> nat {
    match step {
        CountStep::Double => v * 2,
        CountStep::Halve => v / 2,
        CountStep::TimesTen => v * 10,
        CountStep::DivideByTen => v / 10,
    }
}

/// The count that a step button gives for the width, height or iterations
/// field: the field read as a `u32` and doubled, halved, multiplied or divided
/// by ten; `None` where the field does not read. Multiplying past `u32::MAX`
/// overflows, so such a field is left out.
pub fn step_count(text: &str, step: CountStep) -> (r: Option<u32>)
    requires
        parse_decimal(text@, u32::MAX as nat) matches Some(v) ==> step_count_value(v, step)
            <= u32::MAX,
    ensures
        r is Some == parse_decimal(text@, u32::MAX as nat) is Some,
        r matches Some(n) ==> n as nat == step_count_value(
            parse_decimal(text@, u32::MAX as nat).unwrap(),
            step,
        ),
{
    let v = chars_of(text);
    match parse_u32_chars(&v) {
        Some(val) => Some(
            match step {
                CountStep::Double => val * 2,
                CountStep::Halve => val / 2,
                CountStep::TimesTen => val * 10,
                CountStep::DivideByTen => val / 10,
            },
        ),
        None => None,
    }
}

/// A step of the colour period: as `step_count_value`, except that halving and
/// dividing by ten give at least 1.
pub open spec fn step_period_value(v: nat, step: CountStep) -> nat {
    match step {
        CountStep::Halve | CountStep::DivideByTen => {
            let q = step_count_value(v, step);
            if q < 1 {
                1
            } else {
                q
            }
        },
        _ => step_count_value(v, step),
    }
}

/// What the step buttons do to a field that reads as `v`: ×2 and ×10 multiply
/// it, ÷2 and ÷10 divide it (rounding down); on the colour period the two
/// multiplying steps are the same as on any other field, and the two dividing
/// steps give the quotient, or 1 where the quotient is 0.
pub proof fn lemma_step_values(v: nat)
    ensures
        step_count_value(v, CountStep::Double) == 2 * v,
        step_count_value(v, CountStep::TimesTen) == 10 * v,
        step_count_value(v, CountStep::Halve) * 2 <= v < step_count_value(v, CountStep::Halve) * 2
            + 2,
        step_count_value(v, CountStep::DivideByTen) * 10 <= v < step_count_value(
            v,
            CountStep::DivideByTen,
        ) * 10 + 10,
        step_period_value(v, CountStep::Double) == 2 * v,
        step_period_value(v, CountStep::TimesTen) == 10 * v,
        v >= 2 ==> step_period_value(v, CountStep::Halve) == step_count_value(v, CountStep::Halve),
        v < 2 ==> step_period_value(v, CountStep::Halve) == 1,
        v >= 10 ==> step_period_value(v, CountStep::DivideByTen) == step_count_value(
            v,
            CountStep::DivideByTen,
        ),
        v < 10 ==> step_period_value(v, CountStep::DivideByTen) == 1,
{
}

/// The period that a step button gives for the colour-period field: the field
/// read as a `u32` and doubled or multiplied by ten, or halved or divided by
/// ten and then raised to at least 1; `None` where the field does not read.
/// Multiplying past `u32::MAX` overflows, so such a field is left out.
pub fn step_period(text: &str, step: CountStep) -> (r: Option<u32>)
    requires
        parse_decimal(text@, u32::MAX as nat) matches Some(v) ==> step_count_value(v, step)
            <= u32::MAX,
    ensures
        r is Some == parse_decimal(text@, u32::MAX as nat) is Some,
        r matches Some(n) ==> n as nat == step_period_value(
            parse_decimal(text@, u32::MAX as nat).unwrap(),
            step,
        ),
        step == CountStep::Double && r is Some ==> r.unwrap() == 2 * parse_decimal(
            text@,
            u32::MAX as nat,
        ).unwrap(),
        step == CountStep::TimesTen && r is Some ==> r.unwrap() == 10 * parse_decimal(
            text@,
            u32::MAX as nat,
        ).unwrap(),
        r matches Some(n) ==> n >= 1 || step == CountStep::Double || step
            == CountStep::TimesTen,
{
    match step_count(text, step) {
        Some(n) => match step {
            CountStep::Halve | CountStep::DivideByTen => Some(if n < 1 { 1 } else { n }),
            _ => Some(n),
        },
        None => None,
    }
}

} // verus!
