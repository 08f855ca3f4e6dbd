use vstd::prelude::*;

verus! {

/// Image width used when no configuration supplies one.
pub const WIDTH: u32 = 350;

/// Image height used when no configuration supplies one.
pub const HEIGHT: u32 = 200;

/// Samples per pixel used when no configuration supplies them.
pub const SAMPLES: u32 = 200;

/// File the rendered image is written to when no configuration names one.
pub const OUTPUT_FILENAME: &'static str = "output.png";

/// Render settings: raster size, samples per pixel and the output file.
pub struct Config {
    pub width: u32,
    pub height: u32,
    pub samples: u32,
    pub output_filename: String,
}

impl Config {
    pub fn new(width: u32, height: u32, samples: u32, output_filename: String) -> (r: Config)
        ensures
            r.width == width,
            r.height == height,
            r.samples == samples,
            r.output_filename@ == output_filename@,
    {
        Config { width, height, samples, output_filename }
    }

    /// The settings used when no configuration can be read.
    pub fn default() -> (r: Config)
        ensures
            r.width == WIDTH,
            r.height == HEIGHT,
            r.samples == SAMPLES,
            r.output_filename@ == OUTPUT_FILENAME@,
    {
        Config {
            width: WIDTH,
            height: HEIGHT,
            samples: SAMPLES,
            output_filename: OUTPUT_FILENAME.to_owned(),
        }
    }

    /// Settles the configuration from the fields a configuration file may hold.
    /// The output name falls back on its own; the raster size and the sample
    /// count are taken only all together (each cut to 32 bits), otherwise all
    /// three defaults apply.
    pub fn from_fields(
        output: Option<String>,
        width: Option<u64>,
        height: Option<u64>,
        samples: Option<u64>,
    ) -> (r: Config)
        ensures
            r.output_filename@ == (match output {
                Some(s) => s@,
                None => OUTPUT_FILENAME@,
            }),
            (width is Some && height is Some && samples is Some) ==> {
                &&& r.width == width->0 as u32
                &&& r.height == height->0 as u32
                &&& r.samples == samples->0 as u32
            },
            !(width is Some && height is Some && samples is Some) ==> {
                &&& r.width == WIDTH
                &&& r.height == HEIGHT
                &&& r.samples == SAMPLES
            },
    {
        let output_filename = match output {
            Some(s) => s,
            None => OUTPUT_FILENAME.to_owned(),
        };
        match (width, height, samples) {
            (Some(w), Some(h), Some(s)) => Config::new(w as u32, h as u32, s as u32, output_filename),
            _ => Config::new(WIDTH, HEIGHT, SAMPLES, output_filename),
        }
    }
}

} // verus!
