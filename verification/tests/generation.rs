use std::io::Cursor;

use truchet::image::Image;
use svg::node::element::Group;
use truchet::svg::node::element::SVG;
use truchet::to_svg::ToSVG;
use truchet::vec2::Vec2;
use truchet_studio::document::assemble_document;
use truchet_studio::image_data::ImageAdapter;
use truchet_studio::state::{App, Effect, Msg, TileShape};

/// The sampling view the pattern generator is driven through: brightness in
/// [0, 1] is the luma sample divided by 255.
struct SamplingAdapter(ImageAdapter);

impl Image for SamplingAdapter {
    fn size(&self) -> Vec2<usize> {
        let (width, height) = self.0.size();
        Vec2::new(width, height)
    }

    fn get_pixel_brightness(&self, pos: Vec2<usize>) -> f32 {
        let (width, height) = self.0.size();
        assert!(pos.x() < width && pos.y() < height, "pixel out of range");
        self.0.get_pixel_brightness(pos.x(), pos.y()) as f32 / 255.0
    }
}

fn white_2x2_png() -> Vec<u8> {
    let img = image::GrayImage::from_pixel(2, 2, image::Luma([255u8]));
    let mut bytes: Vec<u8> = Vec::new();
    img.write_to(&mut Cursor::new(&mut bytes), image::ImageFormat::Png).unwrap();
    bytes
}

fn generated_fragment(img: ImageAdapter, block_width: usize, block_height: usize) -> String {
    let adapter = SamplingAdapter(img);
    let generator = truchet::generator::circles(Vec2::new(block_width, block_height));
    let tiled = truchet::truchet_image::generate(&adapter, generator);
    tiled.to_svg_node().to_string()
}

fn run_generate(app: &mut App) -> String {
    let (render, effects) = app.update(Msg::GenerateButtonClicked(true));
    assert!(render);
    assert_eq!(effects.len(), 1);
    match effects.into_iter().next().unwrap() {
        Effect::RunGenerator(img, cfg) => {
            assert!(matches!(cfg.shape, TileShape::Circles));
            assert_eq!((cfg.block_width, cfg.block_height), (6, 6));
            let fragment = generated_fragment(img, cfg.block_width, cfg.block_height);
            assemble_document(&fragment)
        }
        _ => panic!("expected a generator run"),
    }
}

#[test]
fn adapter_reports_size_and_full_brightness() {
    let bytes = white_2x2_png();
    let img = ImageAdapter::from_bytes(&bytes).unwrap();
    assert_eq!(img.size(), (2, 2));
    for y in 0..2 {
        for x in 0..2 {
            assert_eq!(img.get_pixel_brightness(x, y), 255);
            let brightness = img.get_pixel_brightness(x, y) as f32 / 255.0;
            assert_eq!(brightness, 1.0);
        }
    }
}

#[test]
fn small_white_image_yields_fixed_frame_document() {
    let mut app = App::create();
    app.update(Msg::Loaded("white.png".to_string(), "image/png".to_string(), white_2x2_png()));
    let doc = run_generate(&mut app);
    assert!(doc.starts_with(
        "<svg height=\"500px\" width=\"500px\" xmlns=\"http://www.w3.org/2000/svg\">\n<g transform=\"scale(10 10)\">\n"
    ));
    assert!(doc.ends_with("\n</g>\n</svg>"));
}

#[test]
fn generation_is_deterministic() {
    let mut app = App::create();
    app.update(Msg::Loaded("white.png".to_string(), "image/png".to_string(), white_2x2_png()));
    let first = run_generate(&mut app);
    let second = run_generate(&mut app);
    assert_eq!(first, second);
}

#[test]
fn assembled_document_matches_the_serializer() {
    let bytes = white_2x2_png();
    let img1 = ImageAdapter::from_bytes(&bytes).unwrap();
    let img2 = ImageAdapter::from_bytes(&bytes).unwrap();
    let fragment = generated_fragment(img1, 6, 6);
    let assembled = assemble_document(&fragment);

    // the same document built and serialized by the vector-document library
    let adapter = SamplingAdapter(img2);
    let generator = truchet::generator::circles(Vec2::new(6, 6));
    let node = truchet::truchet_image::generate(&adapter, generator).to_svg_node();
    let group = Group::new().set("transform", "scale(10 10)").add(node);
    let doc = SVG::new().add(group).set("height", "500px").set("width", "500px");
    let mut written: Vec<u8> = Vec::new();
    svg::write(&mut written, &doc).unwrap();
    assert_eq!(assembled, String::from_utf8(written).unwrap());
}

#[test]
fn later_uploads_are_ignored_by_generate() {
    let mut app = App::create();
    app.update(Msg::Loaded("white.png".to_string(), "image/png".to_string(), white_2x2_png()));
    app.update(Msg::Loaded(
        "garbage.bin".to_string(),
        "application/octet-stream".to_string(),
        vec![9, 9, 9],
    ));
    // the first-ever ingested file is still the one decoded
    let doc = run_generate(&mut app);
    assert!(doc.starts_with("<svg height=\"500px\""));
}
