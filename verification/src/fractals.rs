//! The fractals that the explorer renders.
//!
//! Each fractal is a unit type; what it computes from a point of the plane is
//! floating-point work done around the library. Here each type carries its
//! name and, where it shows one, its iteration formula.

use vstd::prelude::*;

verus! {

/// The Mandelbrot set, z_{n+1} = z_n^p + c with z_0 = 0 and c the point tested.
#[derive(Debug, Clone, Copy, PartialEq, Eq, Structural)]
pub struct Mandelbrot;

impl Mandelbrot {
    pub fn new() -> (r: Self)
        ensures
            r == Mandelbrot,
    {
        Mandelbrot
    }

    /// The name under which the fractal is shown and stored in exported metadata.
    pub fn name(&self) -> (r: &'static str)
        ensures
            r@ == "Mandelbrot"@,
    {
        "Mandelbrot"
    }

    /// The names of the fractal's parameters, in the order the panel lists them.
    pub fn parameter_names(&self) -> (r: Vec<&'static str>)
        ensures
            r@.len() == 1,
            r@[0]@ == "power"@,
    {
        vec!["power"]
    }

    /// The iteration formula shown next to the fractal.
    pub open spec fn spec_equation(&self) -> Seq<char> {
        "z_{n+1} = z_n^p + c"@
    }

    /// The iteration formula shown next to the fractal.
    pub fn equation(&self) -> (r: &'static str)
        ensures
            r@ == "z_{n+1} = z_n^p + c"@,
            r@ == self.spec_equation(),
    {
        "z_{n+1} = z_n^p + c"
    }
}

impl Default for Mandelbrot {
    fn default() -> (r: Self)
        ensures
            r == Mandelbrot,
    {
        Mandelbrot::new()
    }
}

/// The Julia set, z_{n+1} = z_n^2 + c with z_0 the point tested and c fixed.
#[derive(Debug, Clone, Copy, PartialEq, Eq, Structural)]
pub struct Julia;

impl Julia {
    pub fn new() -> (r: Self)
        ensures
            r == Julia,
    {
        Julia
    }

    /// The name under which the fractal is shown and stored in exported metadata.
    pub fn name(&self) -> (r: &'static str)
        ensures
            r@ == "Julia Set"@,
    {
        "Julia Set"
    }

    /// The names of the fractal's parameters, in the order the panel lists them.
    pub fn parameter_names(&self) -> (r: Vec<&'static str>)
        ensures
            r@.len() == 2,
            r@[0]@ == "c_real"@,
            r@[1]@ == "c_imag"@,
    {
        vec!["c_real", "c_imag"]
    }
}

impl Default for Julia {
    fn default() -> (r: Self)
        ensures
            r == Julia,
    {
        Julia::new()
    }
}

/// The Burning Ship fractal, which folds both components to their absolute value before squaring.
#[derive(Debug, Clone, Copy, PartialEq, Eq, Structural)]
pub struct BurningShip;

impl BurningShip {
    pub fn new() -> (r: Self)
        ensures
            r == BurningShip,
    {
        BurningShip
    }

    /// The name under which the fractal is shown and stored in exported metadata.
    pub fn name(&self) -> (r: &'static str)
        ensures
            r@ == "Burning Ship"@,
    {
        "Burning Ship"
    }

    /// The names of the fractal's parameters: it has none.
    pub fn parameter_names(&self) -> (r: Vec<&'static str>)
        ensures
            r@.len() == 0,
    {
        Vec::new()
    }

    /// The iteration formula shown next to the fractal.
    pub open spec fn spec_equation(&self) -> Seq<char> {
        "z_{n+1} = (|Re(z_n)| + i|Im(z_n)|)^2 + c"@
    }

    /// The iteration formula shown next to the fractal.
    pub fn equation(&self) -> (r: &'static str)
        ensures
            r@ == "z_{n+1} = (|Re(z_n)| + i|Im(z_n)|)^2 + c"@,
            r@ == self.spec_equation(),
    {
        "z_{n+1} = (|Re(z_n)| + i|Im(z_n)|)^2 + c"
    }
}

impl Default for BurningShip {
    fn default() -> (r: Self)
        ensures
            r == BurningShip,
    {
        BurningShip::new()
    }
}

/// The Tippets variant of the Mandelbrot set, which updates the imaginary part from the new real part.
#[derive(Debug, Clone, Copy, PartialEq, Eq, Structural)]
pub struct TippetsMandelbrot;

impl TippetsMandelbrot {
    pub fn new() -> (r: Self)
        ensures
            r == TippetsMandelbrot,
    {
        TippetsMandelbrot
    }

    /// The name under which the fractal is shown and stored in exported metadata.
    pub fn name(&self) -> (r: &'static str)
        ensures
            r@ == "Tippets Mandelbrot"@,
    {
        "Tippets Mandelbrot"
    }

    /// The names of the fractal's parameters: it has none.
    pub fn parameter_names(&self) -> (r: Vec<&'static str>)
        ensures
            r@.len() == 0,
    {
        Vec::new()
    }
}

impl Default for TippetsMandelbrot {
    fn default() -> (r: Self)
        ensures
            r == TippetsMandelbrot,
    {
        TippetsMandelbrot::new()
    }
}

/// The Marek dragon, z_{n+1} = exp(i phi) z_n + z_n^2.
#[derive(Debug, Clone, Copy, PartialEq, Eq, Structural)]
pub struct MarekDragon;

impl MarekDragon {
    pub fn new() -> (r: Self)
        ensures
            r == MarekDragon,
    {
        MarekDragon
    }

    /// The name under which the fractal is shown and stored in exported metadata.
    pub fn name(&self) -> (r: &'static str)
        ensures
            r@ == "Marek Dragon"@,
    {
        "Marek Dragon"
    }

    /// The names of the fractal's parameters, in the order the panel lists them.
    pub fn parameter_names(&self) -> (r: Vec<&'static str>)
        ensures
            r@.len() == 1,
            r@[0]@ == "phi"@,
    {
        vec!["phi"]
    }

    /// The iteration formula shown next to the fractal.
    pub open spec fn spec_equation(&self) -> Seq<char> {
        "z_{n+1} = exp(iφ)*z_n + z_n^2"@
    }

    /// The iteration formula shown next to the fractal.
    pub fn equation(&self) -> (r: &'static str)
        ensures
            r@ == "z_{n+1} = exp(iφ)*z_n + z_n^2"@,
            r@ == self.spec_equation(),
    {
        "z_{n+1} = exp(iφ)*z_n + z_n^2"
    }
}

impl Default for MarekDragon {
    fn default() -> (r: Self)
        ensures
            r == MarekDragon,
    {
        MarekDragon::new()
    }
}

/// Tetration, the power tower z_{n+1} = c^(z_n).
#[derive(Debug, Clone, Copy, PartialEq, Eq, Structural)]
pub struct Tetration;

impl Tetration {
    pub fn new() -> (r: Self)
        ensures
            r == Tetration,
    {
        Tetration
    }

    /// The name under which the fractal is shown and stored in exported metadata.
    pub fn name(&self) -> (r: &'static str)
        ensures
            r@ == "Tetration"@,
    {
        "Tetration"
    }

    /// The names of the fractal's parameters, in the order the panel lists them.
    pub fn parameter_names(&self) -> (r: Vec<&'static str>)
        ensures
            r@.len() == 2,
            r@[0]@ == "threshold"@,
            r@[1]@ == "escape_mode"@,
    {
        vec!["threshold", "escape_mode"]
    }

    /// The iteration formula shown next to the fractal.
    pub open spec fn spec_equation(&self) -> Seq<char> {
        "z_{n+1} = c^(z_n)"@
    }

    /// The iteration formula shown next to the fractal.
    pub fn equation(&self) -> (r: &'static str)
        ensures
            r@ == "z_{n+1} = c^(z_n)"@,
            r@ == self.spec_equation(),
    {
        "z_{n+1} = c^(z_n)"
    }
}

impl Default for Tetration {
    fn default() -> (r: Self)
        ensures
            r == Tetration,
    {
        Tetration::new()
    }
}

/// The Lemon fractal, coloured by how fast its Newton-type iteration converges.
#[derive(Debug, Clone, Copy, PartialEq, Eq, Structural)]
pub struct Lemon;

impl Lemon {
    pub fn new() -> (r: Self)
        ensures
            r == Lemon,
    {
        Lemon
    }

    /// The name under which the fractal is shown and stored in exported metadata.
    pub fn name(&self) -> (r: &'static str)
        ensures
            r@ == "Lemon"@,
    {
        "Lemon"
    }

    /// The names of the fractal's parameters, in the order the panel lists them.
    pub fn parameter_names(&self) -> (r: Vec<&'static str>)
        ensures
            r@.len() == 2,
            r@[0]@ == "denom_power"@,
            r@[1]@ == "convergence_exp"@,
    {
        vec!["denom_power", "convergence_exp"]
    }

    /// The iteration formula shown next to the fractal.
    pub open spec fn spec_equation(&self) -> Seq<char> {
        "z_{n+1} = z_0 * z_n^2 * (z_n^2 + 1) / (z_n^2 - 1)^k"@
    }

    /// The iteration formula shown next to the fractal.
    pub fn equation(&self) -> (r: &'static str)
        ensures
            r@ == "z_{n+1} = z_0 * z_n^2 * (z_n^2 + 1) / (z_n^2 - 1)^k"@,
            r@ == self.spec_equation(),
    {
        "z_{n+1} = z_0 * z_n^2 * (z_n^2 + 1) / (z_n^2 - 1)^k"
    }
}

impl Default for Lemon {
    fn default() -> (r: Self)
        ensures
            r == Lemon,
    {
        Lemon::new()
    }
}

/// The Insideout dragon, iterated from the inverse of the point tested.
#[derive(Debug, Clone, Copy, PartialEq, Eq, Structural)]
pub struct InsideoutDragon;

impl InsideoutDragon {
    pub fn new() -> (r: Self)
        ensures
            r == InsideoutDragon,
    {
        InsideoutDragon
    }

    /// The name under which the fractal is shown and stored in exported metadata.
    pub fn name(&self) -> (r: &'static str)
        ensures
            r@ == "Insideout Dragon"@,
    {
        "Insideout Dragon"
    }

    /// The names of the fractal's parameters, in the order the panel lists them.
    pub fn parameter_names(&self) -> (r: Vec<&'static str>)
        ensures
            r@.len() == 1,
            r@[0]@ == "escape_radius"@,
    {
        vec!["escape_radius"]
    }
}

impl Default for InsideoutDragon {
    fn default() -> (r: Self)
        ensures
            r == InsideoutDragon,
    {
        InsideoutDragon::new()
    }
}

/// The Zubieta fractal, z_{n+1} = z_n^2 + c / z_n.
#[derive(Debug, Clone, Copy, PartialEq, Eq, Structural)]
pub struct Zubieta;

impl Zubieta {
    pub fn new() -> (r: Self)
        ensures
            r == Zubieta,
    {
        Zubieta
    }

    /// The name under which the fractal is shown and stored in exported metadata.
    pub fn name(&self) -> (r: &'static str)
        ensures
            r@ == "Zubieta"@,
    {
        "Zubieta"
    }

    /// The names of the fractal's parameters, in the order the panel lists them.
    pub fn parameter_names(&self) -> (r: Vec<&'static str>)
        ensures
            r@.len() == 2,
            r@[0]@ == "c_real"@,
            r@[1]@ == "c_imag"@,
    {
        vec!["c_real", "c_imag"]
    }

    /// The iteration formula shown next to the fractal.
    pub open spec fn spec_equation(&self) -> Seq<char> {
        "z_{n+1} = z_n^2 + c/z_n"@
    }

    /// The iteration formula shown next to the fractal.
    pub fn equation(&self) -> (r: &'static str)
        ensures
            r@ == "z_{n+1} = z_n^2 + c/z_n"@,
            r@ == self.spec_equation(),
    {
        "z_{n+1} = z_n^2 + c/z_n"
    }
}

impl Default for Zubieta {
    fn default() -> (r: Self)
        ensures
            r == Zubieta,
    {
        Zubieta::new()
    }
}

/// The sine Julia set, z_{n+1} = c sin(z_n).
#[derive(Debug, Clone, Copy, PartialEq, Eq, Structural)]
pub struct SinJulia;

impl SinJulia {
    pub fn new() -> (r: Self)
        ensures
            r == SinJulia,
    {
        SinJulia
    }

    /// The name under which the fractal is shown and stored in exported metadata.
    pub fn name(&self) -> (r: &'static str)
        ensures
            r@ == "Sin Julia"@,
    {
        "Sin Julia"
    }

    /// The names of the fractal's parameters, in the order the panel lists them.
    pub fn parameter_names(&self) -> (r: Vec<&'static str>)
        ensures
            r@.len() == 3,
            r@[0]@ == "c_real"@,
            r@[1]@ == "c_imag"@,
            r@[2]@ == "escape_radius"@,
    {
        vec!["c_real", "c_imag", "escape_radius"]
    }

    /// The iteration formula shown next to the fractal.
    pub open spec fn spec_equation(&self) -> Seq<char> {
        "z_{n+1} = c * sin(z_n)"@
    }

    /// The iteration formula shown next to the fractal.
    pub fn equation(&self) -> (r: &'static str)
        ensures
            r@ == "z_{n+1} = c * sin(z_n)"@,
            r@ == self.spec_equation(),
    {
        "z_{n+1} = c * sin(z_n)"
    }
}

impl Default for SinJulia {
    fn default() -> (r: Self)
        ensures
            r == SinJulia,
    {
        SinJulia::new()
    }
}

} // verus!
