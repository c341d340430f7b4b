use forma_fractalis::fractals::{
    BurningShip, InsideoutDragon, Julia, Lemon, Mandelbrot, MarekDragon, SinJulia, Tetration,
    TippetsMandelbrot, Zubieta,
};
use forma_fractalis::app_state::FractalType;
use forma_fractalis::export::{
    create_png_metadata, decode_png_text_metadata, export_file_name, export_supersample,
    parse_filter_type, parse_fractal_type, settings_file_kind, SettingsFile,
};
use forma_fractalis::filtering::{calculate_supersample_dimensions, FilterType};

fn pair(k: &str, v: &str) -> (String, String) {
    (k.to_string(), v.to_string())
}

fn julia_chunks(use_period: bool, use_interior: bool) -> Vec<(String, String)> {
    create_png_metadata(
        "Julia Set",
        Some("{\"c_real\":-0.8,\"c_imag\":0.156}".to_string()),
        "0.5".to_string(),
        "-0.3".to_string(),
        "3.5".to_string(),
        640,
        480,
        512,
        "Default".to_string(),
        "{\"name\":\"Default\",\"stops\":[]}".to_string(),
        use_period,
        128,
        use_interior,
        [255, 0, 128],
        true,
        FilterType::Lanczos3,
        2,
        "2.5".to_string(),
        "0.1.7",
        1234567890,
    )
}

#[test]
fn test_metadata_parse_fractal_types() {
    let test_cases = vec![
        ("Mandelbrot", FractalType::Mandelbrot),
        ("Julia", FractalType::Julia),
        ("Burning Ship", FractalType::BurningShip),
        ("Tippets Mandelbrot", FractalType::TippetsMandelbrot),
        ("Multifractal-Julia", FractalType::MultifractalJulia),
    ];
    for (name, expected_type) in test_cases {
        assert_eq!(parse_fractal_type(name).unwrap(), expected_type);
    }
    assert!(parse_fractal_type("NonexistentFractal").is_err());
}

#[test]
fn test_metadata_struct() {
    assert!(parse_fractal_type("Julia").is_ok());
    assert_eq!(parse_fractal_type("Julia").unwrap(), FractalType::Julia);
    assert_eq!(parse_filter_type("Lanczos3"), FilterType::Lanczos3);
}

#[test]
fn parse_fractal_type_names_and_errors() {
    assert_eq!(parse_fractal_type("Mandelbrot Set"), Ok(FractalType::Mandelbrot));
    assert_eq!(parse_fractal_type("Julia Set"), Ok(FractalType::Julia));
    assert_eq!(parse_fractal_type("Cactus"), Ok(FractalType::Cactus));
    assert_eq!(parse_fractal_type("Marek Dragon"), Ok(FractalType::MarekDragon));
    assert_eq!(parse_fractal_type("Tetration"), Ok(FractalType::Tetration));
    assert_eq!(parse_fractal_type("Sin Julia"), Ok(FractalType::SinJulia));
    assert_eq!(parse_fractal_type("julia"), Err("Unknown fractal type: julia".to_string()));
    assert_eq!(parse_fractal_type(""), Err("Unknown fractal type: ".to_string()));
    for &t in FractalType::all() {
        assert_eq!(parse_fractal_type(t.as_str()), Ok(t));
    }
}

#[test]
fn parse_filter_type_round_trip_and_fallback() {
    for f in FilterType::ALL {
        assert_eq!(parse_filter_type(f.as_str()), f);
    }
    assert_eq!(parse_filter_type("lanczos3"), FilterType::NoFilter);
    assert_eq!(parse_filter_type(""), FilterType::NoFilter);
}

#[test]
fn created_chunks_in_order() {
    let chunks = julia_chunks(true, true);
    let keys: Vec<&str> = chunks.iter().map(|(k, _)| k.as_str()).collect();
    assert_eq!(
        keys,
        vec![
            "Fractal-Type",
            "Fractal-Parameters",
            "View-CenterX",
            "View-CenterY",
            "View-Zoom",
            "View-Width",
            "View-Height",
            "Max-Iterations",
            "Colormap-Name",
            "Colormap-Data",
            "Color-Period-Enabled",
            "Color-Period",
            "Interior-Color-Enabled",
            "Interior-Color-RGB",
            "Log-Scale-Enabled",
            "Export-Filter",
            "Export-Supersample",
            "Export-Scale",
            "Forma-Fractalis-Version",
            "Metadata-Version",
            "Created-Timestamp",
        ]
    );
    assert_eq!(chunks[5].1, "640");
    assert_eq!(chunks[10].1, "true");
    assert_eq!(chunks[13].1, "[255,0,128]");
    assert_eq!(chunks[19].1, "1.0");
    assert_eq!(chunks[20].1, "1234567890");
    let short = julia_chunks(false, false);
    assert_eq!(short.len(), 19);
    assert_eq!(short[10], pair("Color-Period-Enabled", "false"));
    assert_eq!(short[11], pair("Interior-Color-Enabled", "false"));
}

#[test]
fn export_and_load_round_trip() {
    let chunks = julia_chunks(true, true);
    let loaded = decode_png_text_metadata(&chunks, 1, 1).unwrap();
    assert_eq!(loaded.fractal_type, "Julia Set");
    assert_eq!(
        loaded.fractal_parameters.as_deref(),
        Some("{\"c_real\":-0.8,\"c_imag\":0.156}")
    );
    assert_eq!(loaded.center_x, "0.5");
    assert_eq!(loaded.center_y, "-0.3");
    assert_eq!(loaded.zoom, "3.5");
    assert_eq!(loaded.width, 640);
    assert_eq!(loaded.height, 480);
    assert_eq!(loaded.max_iterations, 512);
    assert_eq!(loaded.colormap_name, "Default");
    assert!(loaded.colormap_data.is_some());
    assert!(loaded.use_period);
    assert_eq!(loaded.period, 128);
    assert!(loaded.use_interior_color);
    assert_eq!(loaded.interior_color, [255, 0, 128]);
    assert!(loaded.use_log_scale);
    assert_eq!(loaded.export_filter, "Lanczos3");
    assert_eq!(loaded.export_supersample, 2);
    assert_eq!(loaded.export_scale.as_deref(), Some("2.5"));
    assert_eq!(loaded.version.as_deref(), Some("0.1.7"));
    assert_eq!(loaded.metadata_version.as_deref(), Some("1.0"));
    assert_eq!(loaded.created_timestamp, Some(1234567890));
    assert_eq!(parse_fractal_type(&loaded.fractal_type), Ok(FractalType::Julia));
}

#[test]
fn disabled_settings_read_back_as_defaults() {
    let chunks = julia_chunks(false, false);
    let loaded = decode_png_text_metadata(&chunks, 1, 1).unwrap();
    assert!(!loaded.use_period);
    assert_eq!(loaded.period, 256);
    assert!(!loaded.use_interior_color);
    assert_eq!(loaded.interior_color, [0, 0, 0]);
}

#[test]
fn minimal_chunks_take_defaults() {
    let chunks = vec![
        pair("Metadata-Version", "1.0"),
        pair("Fractal-Type", "Mandelbrot"),
        pair("View-CenterX", "-0.5"),
        pair("View-CenterY", "0"),
        pair("View-Zoom", "1e3"),
        pair("Max-Iterations", "100"),
        pair("Colormap-Name", "Fire"),
        pair("Interior-Color-RGB", "not json"),
        pair("Color-Period-Enabled", "yes"),
    ];
    let m = decode_png_text_metadata(&chunks, 800, 600).unwrap();
    assert_eq!(m.width, 800);
    assert_eq!(m.height, 600);
    assert_eq!(m.period, 256);
    assert!(!m.use_period);
    assert_eq!(m.interior_color, [0, 0, 0]);
    assert_eq!(m.export_filter, "None");
    assert_eq!(m.export_supersample, 4);
    assert!(m.export_scale.is_none());
    assert!(m.version.is_none());
    assert!(m.created_timestamp.is_none());
    assert!(m.colormap_data.is_none());
    assert!(m.fractal_parameters.is_none());
}

#[test]
fn first_chunk_with_a_keyword_wins() {
    let mut chunks = julia_chunks(true, true);
    chunks.push(pair("View-Width", "1"));
    chunks.insert(0, pair("Max-Iterations", "7"));
    let m = decode_png_text_metadata(&chunks, 1, 1).unwrap();
    assert_eq!(m.width, 640);
    assert_eq!(m.max_iterations, 7);
}

#[test]
fn load_errors_in_reading_order() {
    let none: Vec<(String, String)> = vec![pair("Software", "other")];
    assert_eq!(
        decode_png_text_metadata(&none, 1, 1).err().unwrap(),
        "This PNG does not contain Forma Fractalis metadata"
    );
    let mut base = vec![pair("Forma-Fractalis-Version", "0.1.7")];
    assert_eq!(
        decode_png_text_metadata(&base, 1, 1).err().unwrap(),
        "Missing fractal type in metadata"
    );
    base.push(pair("Fractal-Type", "Lemon"));
    assert_eq!(
        decode_png_text_metadata(&base, 1, 1).err().unwrap(),
        "Missing or invalid View-CenterX"
    );
    base.push(pair("View-CenterX", "1.5.2"));
    assert_eq!(
        decode_png_text_metadata(&base, 1, 1).err().unwrap(),
        "Missing or invalid View-CenterX"
    );
    base[2] = pair("View-CenterX", "-inf");
    assert_eq!(
        decode_png_text_metadata(&base, 1, 1).err().unwrap(),
        "Missing or invalid View-CenterY"
    );
    base.push(pair("View-CenterY", "NaN"));
    assert_eq!(
        decode_png_text_metadata(&base, 1, 1).err().unwrap(),
        "Missing or invalid View-Zoom"
    );
    base.push(pair("View-Zoom", ".5E-3"));
    assert_eq!(
        decode_png_text_metadata(&base, 1, 1).err().unwrap(),
        "Missing or invalid Max-Iterations"
    );
    base.push(pair("Max-Iterations", "-1"));
    assert_eq!(
        decode_png_text_metadata(&base, 1, 1).err().unwrap(),
        "Missing or invalid Max-Iterations"
    );
    base[5] = pair("Max-Iterations", "64");
    assert_eq!(
        decode_png_text_metadata(&base, 1, 1).err().unwrap(),
        "Missing colormap name"
    );
    base.push(pair("Colormap-Name", "Ocean"));
    assert!(decode_png_text_metadata(&base, 1, 1).is_ok());
}

#[test]
fn float_texts_follow_the_float_grammar() {
    for (text, ok) in [
        ("1", true),
        ("1.", true),
        (".5", true),
        ("+3.25e+10", true),
        ("1E5", true),
        ("Infinity", true),
        ("-iNf", true),
        ("nan", true),
        (".", false),
        ("", false),
        ("1e", false),
        ("e5", false),
        ("1.5.2", false),
        (" 1", false),
        ("0x10", false),
        ("infinit", false),
    ] {
        let chunks = vec![
            pair("Metadata-Version", "1.0"),
            pair("Fractal-Type", "Mandelbrot"),
            pair("View-CenterX", text),
            pair("View-CenterY", "0"),
            pair("View-Zoom", "1"),
            pair("Max-Iterations", "100"),
            pair("Colormap-Name", "Fire"),
        ];
        assert_eq!(decode_png_text_metadata(&chunks, 1, 1).is_ok(), ok, "{text}");
        assert_eq!(text.parse::<f64>().is_ok(), ok, "{text}");
    }
}

#[test]
fn export_file_names() {
    assert_eq!(
        export_file_name("Burning Ship", 1920, 1080, FilterType::NoFilter, 8, 1700000000),
        "burning_ship_1920x10801700000000.png"
    );
    assert_eq!(
        export_file_name("Julia Set", 800, 600, FilterType::Lanczos3, 4, 42),
        "julia_set_800x600_4xLanczos342.png"
    );
    assert_eq!(
        export_file_name("Mandelbrot", 10, 10, FilterType::Gaussian, 1, 0),
        "mandelbrot_10x100.png"
    );
    assert_eq!(export_supersample(FilterType::NoFilter, 8), 1);
    assert_eq!(export_supersample(FilterType::Gaussian, 0), 1);
    assert_eq!(export_supersample(FilterType::Gaussian, 3), 3);
}

#[test]
fn exported_fractal_names_read_back_as_their_type() {
    let cases = [
        (Mandelbrot::new().name(), FractalType::Mandelbrot),
        (Julia::new().name(), FractalType::Julia),
        (BurningShip::new().name(), FractalType::BurningShip),
        (TippetsMandelbrot::new().name(), FractalType::TippetsMandelbrot),
        (MarekDragon::new().name(), FractalType::MarekDragon),
        (Tetration::new().name(), FractalType::Tetration),
        (Lemon::new().name(), FractalType::Lemon),
        (InsideoutDragon::new().name(), FractalType::InsideoutDragon),
        (Zubieta::new().name(), FractalType::Zubieta),
        (SinJulia::new().name(), FractalType::SinJulia),
    ];
    for (name, t) in cases {
        assert_eq!(parse_fractal_type(name), Ok(t));
    }
    assert_eq!(parse_fractal_type("Mandelbrot Set"), Ok(FractalType::Mandelbrot));
}

#[test]
fn settings_files_go_by_extension_in_any_case() {
    assert_eq!(settings_file_kind("png"), Ok(SettingsFile::Png));
    assert_eq!(settings_file_kind("PNG"), Ok(SettingsFile::Png));
    assert_eq!(settings_file_kind("Json"), Ok(SettingsFile::Json));
    assert_eq!(settings_file_kind("json"), Ok(SettingsFile::Json));
}

#[test]
fn other_settings_extensions_are_refused() {
    assert_eq!(
        settings_file_kind("txt"),
        Err("Unsupported file extension: txt".to_string())
    );
    assert_eq!(
        settings_file_kind(""),
        Err("Unsupported file extension: ".to_string())
    );
    assert_eq!(
        settings_file_kind("pngx"),
        Err("Unsupported file extension: pngx".to_string())
    );
}

#[test]
fn supersampled_dimensions_multiply_and_saturate() {
    assert_eq!(calculate_supersample_dimensions(800, 600, 2), (1600, 1200));
    assert_eq!(calculate_supersample_dimensions(640, 480, 1), (640, 480));
    assert_eq!(calculate_supersample_dimensions(100, 50, 0), (0, 0));
    assert_eq!(
        calculate_supersample_dimensions(u32::MAX, 3, 2),
        (u32::MAX, 6)
    );
}
