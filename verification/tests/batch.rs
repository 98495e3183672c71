use blaze_rs::blend::normal;
use blaze_rs::blend::set_blend_mode;
use blaze_rs::blend::BlendState;
use blaze_rs::dynamic::create_batch;
use blaze_rs::dynamic::InitFlags;
use blaze_rs::dynamic::SpriteBatchOpts;
use blaze_rs::geometry::Color;
use blaze_rs::geometry::Rotation;
use blaze_rs::geometry::SpriteFlip;
use blaze_rs::geometry::Vector2;
use blaze_rs::fx::FX_ONE;
use blaze_rs::texture::Texture;
use blaze_rs::CapacityKind;
use blaze_rs::Error;

fn fx(v: f32) -> i64 {
    (v * 65536.0).round() as i64
}

fn rotation(radians: f32) -> Rotation {
    Rotation { cos: fx(radians.cos()), sin: fx(radians.sin()) }
}

fn deg(degrees: f32) -> f32 {
    degrees * 3.14159265 / 180.0
}

const WHITE: Color = Color { r: FX_ONE, g: FX_ONE, b: FX_ONE, a: FX_ONE };

fn default_opts(max_buckets: u32, max_sprites_per_bucket: u32) -> SpriteBatchOpts {
    SpriteBatchOpts { max_buckets, max_sprites_per_bucket, flags: InitFlags::default() }
}

#[test]
fn test_init_shutdown() {
    let options = default_opts(5, 100);
    let batch = create_batch(options.clone());
    assert!(batch.is_ok());
    assert!(batch.unwrap().get_options() == &options);

    let fail = create_batch(default_opts(0, 0));
    assert!(fail.is_err());
}

#[test]
fn test_create_rejects_zero_capacities() {
    assert!(matches!(create_batch(default_opts(0, 10)), Err(Error::InvalidArgument)));
    assert!(matches!(create_batch(default_opts(10, 0)), Err(Error::InvalidArgument)));
    assert!(matches!(create_batch(default_opts(0, 0)), Err(Error::InvalidArgument)));
    assert!(create_batch(default_opts(1, 1)).is_ok());
}

#[test]
fn test_bucket_capacity_fails_on_extra_texture() {
    let tex = |id: u32| Texture { id, width: 16, height: 16 };
    let quad = blaze_rs::geometry::build_quad(
        16,
        16,
        Vector2 { x: 0, y: 0 },
        None,
        Rotation { cos: FX_ONE, sin: 0 },
        None,
        None,
        WHITE,
        SpriteFlip::FlipNone,
    );

    let mut batch = create_batch(default_opts(2, 100)).unwrap();
    assert!(batch.lower_draw(&tex(1), &quad).is_ok());
    assert!(batch.lower_draw(&tex(2), &quad).is_ok());
    // Existing buckets still accept sprites at full bucket occupancy.
    assert!(batch.lower_draw(&tex(1), &quad).is_ok());
    assert!(matches!(
        batch.lower_draw(&tex(3), &quad),
        Err(Error::CapacityExceeded(CapacityKind::Buckets))
    ));

    // The same failure, whatever order the first two textures arrived in.
    let mut batch2 = create_batch(default_opts(2, 100)).unwrap();
    assert!(batch2.lower_draw(&tex(2), &quad).is_ok());
    assert!(batch2.lower_draw(&tex(1), &quad).is_ok());
    assert!(matches!(
        batch2.lower_draw(&tex(3), &quad),
        Err(Error::CapacityExceeded(CapacityKind::Buckets))
    ));
}

#[test]
fn test_sprite_capacity_fails_on_extra_sprite() {
    let tex = Texture { id: 1, width: 16, height: 16 };
    let quad = blaze_rs::geometry::build_quad(
        16,
        16,
        Vector2 { x: 0, y: 0 },
        None,
        Rotation { cos: FX_ONE, sin: 0 },
        None,
        None,
        WHITE,
        SpriteFlip::FlipNone,
    );

    let mut batch = create_batch(default_opts(2, 3)).unwrap();
    assert!(batch.lower_draw(&tex, &quad).is_ok());
    assert!(batch.lower_draw(&tex, &quad).is_ok());
    assert!(batch.lower_draw(&tex, &quad).is_ok());
    assert!(matches!(
        batch.lower_draw(&tex, &quad),
        Err(Error::CapacityExceeded(CapacityKind::Sprites))
    ));
    // A different texture still has room.
    let tex2 = Texture { id: 2, width: 16, height: 16 };
    assert!(batch.lower_draw(&tex2, &quad).is_ok());
}

#[test]
fn test_draw_dynamic_two_textures_present_order() {
    // Twelve sprites per texture at 30-degree steps; one draw call per
    // texture, in first-seen order, each carrying all twelve quads.
    let mut batch = create_batch(default_opts(2, 100)).unwrap();
    let textures = [Texture { id: 7, width: 16, height: 16 }, Texture {
        id: 9,
        width: 32,
        height: 32,
    }];

    let mut state = BlendState::new();
    set_blend_mode(&mut state, normal());
    assert_eq!(state.mode, normal());

    for texture in textures.iter() {
        let mut pos = Vector2 { x: fx(20.0), y: fx(20.0) };
        for j in 0..12 {
            let r = batch.draw(
                texture,
                pos,
                None,
                rotation(deg(j as f32 * 30.0)),
                None,
                None,
                WHITE,
                SpriteFlip::FlipNone,
            );
            assert!(r.is_ok());
            pos.x += fx(40.0);
        }
    }

    let calls = batch.present();
    assert_eq!(calls.len(), 2);
    assert_eq!(calls[0].texture, 7);
    assert_eq!(calls[0].quads.len(), 12);
    assert_eq!(calls[1].texture, 9);
    assert_eq!(calls[1].quads.len(), 12);
}

#[test]
fn test_present_twice_is_idempotent() {
    let mut batch = create_batch(default_opts(2, 10)).unwrap();
    let tex = Texture { id: 1, width: 16, height: 16 };
    let r = batch.draw(
        &tex,
        Vector2 { x: 0, y: 0 },
        None,
        Rotation { cos: FX_ONE, sin: 0 },
        None,
        None,
        WHITE,
        SpriteFlip::FlipNone,
    );
    assert!(r.is_ok());

    let first = batch.present();
    assert_eq!(first.len(), 1);
    assert_eq!(first[0].quads.len(), 1);

    let second = batch.present();
    assert_eq!(second.len(), 0);
}

#[test]
fn test_present_on_empty_batch_is_noop() {
    let mut batch = create_batch(default_opts(3, 10)).unwrap();
    assert_eq!(batch.present().len(), 0);
}

#[test]
fn test_no_buffering_batch_behaves_the_same() {
    let opts = SpriteBatchOpts {
        max_buckets: 2,
        max_sprites_per_bucket: 10,
        flags: InitFlags::no_buffering(),
    };
    assert!(opts.flags.is_no_buffering());
    let mut batch = create_batch(opts).unwrap();
    let tex = Texture { id: 4, width: 8, height: 8 };
    let quad = blaze_rs::geometry::build_quad(
        8,
        8,
        Vector2 { x: 0, y: 0 },
        None,
        Rotation { cos: FX_ONE, sin: 0 },
        None,
        None,
        WHITE,
        SpriteFlip::FlipNone,
    );
    assert!(batch.lower_draw(&tex, &quad).is_ok());
    let calls = batch.present();
    assert_eq!(calls.len(), 1);
    assert_eq!(calls[0].texture, 4);
    assert_eq!(batch.present().len(), 0);
    // The bucket keeps its slot: the texture can be drawn again afterwards.
    assert!(batch.lower_draw(&tex, &quad).is_ok());
    assert_eq!(batch.present().len(), 1);
}

#[test]
fn test_quads_keep_submission_order() {
    let mut batch = create_batch(default_opts(1, 10)).unwrap();
    let tex = Texture { id: 1, width: 16, height: 16 };
    let quad_at = |x: i64| {
        blaze_rs::geometry::build_quad(
            16,
            16,
            Vector2 { x, y: 0 },
            None,
            Rotation { cos: FX_ONE, sin: 0 },
            None,
            None,
            WHITE,
            SpriteFlip::FlipNone,
        )
    };
    let first = quad_at(0);
    let second = quad_at(FX_ONE);
    assert!(batch.lower_draw(&tex, &first).is_ok());
    assert!(batch.lower_draw(&tex, &second).is_ok());
    let calls = batch.present();
    assert_eq!(calls.len(), 1);
    assert_eq!(calls[0].quads.len(), 2);
    assert_eq!(calls[0].quads[0], first);
    assert_eq!(calls[0].quads[1], second);
}

#[test]
fn test_init_flags_default_buffers() {
    let flags = InitFlags::default();
    assert_eq!(flags.bits, 0);
    assert!(!flags.is_no_buffering());
}

#[test]
fn test_init_flags_from_bits() {
    assert_eq!(InitFlags::from_bits(0).unwrap().bits, 0);
    assert!(InitFlags::from_bits(1).unwrap().is_no_buffering());
    assert!(InitFlags::from_bits(2).is_none());
}
