use blitz::builtins::call_builtin;
use blitz::error::RuntimeError;
use blitz::impls::{BinOpFn, Builtin, UnOpFn};
use blitz::ops::{apply_bin_op, apply_un_op, int_to_decimal};
use blitz::stdlib::buffers::{Buffer, Buffers};
use blitz::stdlib::context::Context;
use blitz::stdlib::graphics::Graphics;
use blitz::stdlib::image_impls::{create_image, free_image, image_buffer, mid_handle};
use blitz::stdlib::images::{Image, Images};
use blitz::stdlib::rng::Rng;
use blitz::stdlib::time::milli_secs_from_ns;
use blitz::stdlib::window::{Headless, Window};
use blitz::value::{FloatOps, FloatOrder, Value, ValueType};

struct F32;

impl FloatOps for F32 {
    fn parse_literal(&self, text: &str) -> u32 {
        text.parse::<f32>().map(|f| f.to_bits()).unwrap_or(0)
    }
    fn from_int(&self, x: i32) -> u32 {
        (x as f32).to_bits()
    }
    fn to_int(&self, x: u32) -> i32 {
        f32::from_bits(x) as i32
    }
    fn add(&self, a: u32, b: u32) -> u32 {
        (f32::from_bits(a) + f32::from_bits(b)).to_bits()
    }
    fn sub(&self, a: u32, b: u32) -> u32 {
        (f32::from_bits(a) - f32::from_bits(b)).to_bits()
    }
    fn mul(&self, a: u32, b: u32) -> u32 {
        (f32::from_bits(a) * f32::from_bits(b)).to_bits()
    }
    fn div(&self, a: u32, b: u32) -> u32 {
        (f32::from_bits(a) / f32::from_bits(b)).to_bits()
    }
    fn compare(&self, a: u32, b: u32) -> FloatOrder {
        let (x, y) = (f32::from_bits(a), f32::from_bits(b));
        if x < y {
            FloatOrder::Less
        } else if x > y {
            FloatOrder::Greater
        } else if x == y {
            FloatOrder::Equal
        } else {
            FloatOrder::Unordered
        }
    }
    fn sin_degrees(&self, x: u32) -> u32 {
        (f32::from_bits(x) / 180.0 * std::f32::consts::PI).sin().to_bits()
    }
    fn cos_degrees(&self, x: u32) -> u32 {
        (f32::from_bits(x) / 180.0 * std::f32::consts::PI).cos().to_bits()
    }
}

fn int_of(v: &Result<Value, RuntimeError>) -> i32 {
    match v {
        Ok(Value::Integer(x)) => *x,
        other => panic!("not an integer: {:?}", other),
    }
}

#[test]
fn integer_arithmetic() {
    let f = F32;
    assert_eq!(int_of(&apply_bin_op(BinOpFn::AddIntInt, &Value::Integer(2), &Value::Integer(3), &f)), 5);
    assert_eq!(int_of(&apply_bin_op(BinOpFn::SubIntInt, &Value::Integer(2), &Value::Integer(3), &f)), -1);
    assert_eq!(int_of(&apply_bin_op(BinOpFn::MulIntInt, &Value::Integer(-4), &Value::Integer(3), &f)), -12);
    assert_eq!(int_of(&apply_bin_op(BinOpFn::DivIntInt, &Value::Integer(-7), &Value::Integer(2), &f)), -3);
    assert_eq!(int_of(&apply_bin_op(BinOpFn::ShlIntInt, &Value::Integer(1), &Value::Integer(4), &f)), 16);
    assert_eq!(int_of(&apply_bin_op(BinOpFn::ShrIntInt, &Value::Integer(-16), &Value::Integer(2), &f)), -4);
}

#[test]
fn integer_errors() {
    let f = F32;
    assert!(matches!(
        apply_bin_op(BinOpFn::AddIntInt, &Value::Integer(i32::MAX), &Value::Integer(1), &f),
        Err(RuntimeError::IntegerOverflow)
    ));
    assert!(matches!(
        apply_bin_op(BinOpFn::DivIntInt, &Value::Integer(1), &Value::Integer(0), &f),
        Err(RuntimeError::DivisionByZero)
    ));
    assert!(matches!(
        apply_bin_op(BinOpFn::DivIntInt, &Value::Integer(i32::MIN), &Value::Integer(-1), &f),
        Err(RuntimeError::IntegerOverflow)
    ));
    assert!(matches!(
        apply_bin_op(BinOpFn::ShlIntInt, &Value::Integer(1), &Value::Integer(32), &f),
        Err(RuntimeError::IntegerOverflow)
    ));
    assert!(matches!(
        apply_bin_op(BinOpFn::AddIntInt, &Value::Integer(1), &Value::Bool(true), &f),
        Err(RuntimeError::TypeMismatch)
    ));
    assert!(matches!(apply_un_op(UnOpFn::NegInt, &Value::Integer(i32::MIN), &f), Err(RuntimeError::IntegerOverflow)));
}

#[test]
fn comparisons_and_logic() {
    let f = F32;
    assert!(matches!(
        apply_bin_op(BinOpFn::LtEqIntInt, &Value::Integer(3), &Value::Integer(3), &f),
        Ok(Value::Bool(true))
    ));
    assert!(matches!(
        apply_bin_op(BinOpFn::GtIntInt, &Value::Integer(3), &Value::Integer(3), &f),
        Ok(Value::Bool(false))
    ));
    assert!(matches!(
        apply_bin_op(BinOpFn::AndBoolBool, &Value::Bool(true), &Value::Bool(false), &f),
        Ok(Value::Bool(false))
    ));
    assert!(matches!(apply_un_op(UnOpFn::NotBool, &Value::Bool(false), &f), Ok(Value::Bool(true))));
    let half = 0.5f32.to_bits();
    assert!(matches!(
        apply_bin_op(BinOpFn::LtFloatInt, &Value::Float(half), &Value::Integer(1), &f),
        Ok(Value::Bool(true))
    ));
}

#[test]
fn float_negation_flips_the_sign_bit() {
    let f = F32;
    match apply_un_op(UnOpFn::NegFloat, &Value::Float(1.5f32.to_bits()), &f) {
        Ok(Value::Float(x)) => assert_eq!(f32::from_bits(x), -1.5),
        other => panic!("{:?}", other),
    }
}

#[test]
fn float_arithmetic_goes_through_float_ops() {
    let f = F32;
    match apply_bin_op(BinOpFn::AddIntFloat, &Value::Integer(2), &Value::Float(0.25f32.to_bits()), &f) {
        Ok(Value::Float(x)) => assert_eq!(f32::from_bits(x), 2.25),
        other => panic!("{:?}", other),
    }
    match apply_bin_op(BinOpFn::ShlFloatInt, &Value::Float(3.7f32.to_bits()), &Value::Integer(1), &f) {
        Ok(Value::Integer(x)) => assert_eq!(x, 6),
        other => panic!("{:?}", other),
    }
}

#[test]
fn integer_plus_string_prepends_the_decimal() {
    let f = F32;
    match apply_bin_op(BinOpFn::AddIntString, &Value::Integer(-12), &Value::String(String::from("abc")), &f) {
        Ok(Value::String(s)) => assert_eq!(s, "-12abc"),
        other => panic!("{:?}", other),
    }
}

#[test]
fn decimal_text() {
    assert_eq!(int_to_decimal(0), "0");
    assert_eq!(int_to_decimal(7), "7");
    assert_eq!(int_to_decimal(1234567), "1234567");
    assert_eq!(int_to_decimal(-45), "-45");
    assert_eq!(int_to_decimal(i32::MAX), "2147483647");
    assert_eq!(int_to_decimal(i32::MIN), "-2147483648");
}

#[test]
fn rng_sequence_from_new() {
    let mut r = Rng::new();
    assert_eq!(r.rand(1, 10), 4);
    assert_eq!(r.rand(1, 10), 10);
    // a negative sample gives a result below the range, as `%` truncates
    assert_eq!(r.rand(1, 10), -4);
}

#[test]
fn rng_new_equals_seed_zero() {
    let mut a = Rng::new();
    let mut b = Rng::new();
    b.seed_rnd(0);
    for _ in 0..5 {
        assert_eq!(a.rand(0, 1000), b.rand(0, 1000));
    }
}

#[test]
fn rng_seeded() {
    let mut r = Rng::new();
    r.seed_rnd(5);
    assert_eq!(r.rand(0, 99), -6);
    assert!(r.can_rand(0, 99));
    assert!(!r.can_rand(5, 4));
    assert!(!r.can_rand(i32::MIN, i32::MAX));
}

#[test]
fn buffers_reuse_freed_handles() {
    let mut b = Buffers::new();
    assert_eq!(b.allocate(2, 2), 0);
    assert_eq!(b.allocate(3, 1), 1);
    assert_eq!(b.allocate(1, 1), 2);
    b.free(1);
    assert!(!b.is_live(1));
    assert_eq!(b.allocate(4, 4), 1);
    assert!(b.is_live(1));
    assert_eq!(b.get(1).data.len(), 16);
    b.free(0);
    b.free(2);
    assert_eq!(b.allocate(1, 1), 0);
    assert_eq!(b.allocate(1, 1), 2);
    assert_eq!(b.allocate(1, 1), 3);
}

#[test]
fn new_buffer_is_black() {
    let buf = Buffer::new(3, 2);
    assert_eq!(buf.width, 3);
    assert_eq!(buf.height, 2);
    assert_eq!(buf.data, vec![0u32; 6]);
}

#[test]
fn images_reuse_freed_handles() {
    let mut images = Images::new();
    assert_eq!(images.allocate(7), 0);
    assert_eq!(images.allocate(8), 1);
    images.free(0);
    assert_eq!(images.allocate(9), 0);
    assert_eq!(images.get(0), Image { buffer_handle: 9, mid_handle: false });
    images.set_mid_handle(1);
    assert_eq!(images.get(1), Image { buffer_handle: 8, mid_handle: true });
    assert_eq!(Image::new(3), Image { buffer_handle: 3, mid_handle: false });
}

#[test]
fn graphics_draws_to_the_current_buffer() {
    let mut buffers = Buffers::new();
    let h = buffers.allocate(4, 3);
    let mut g = Graphics::new();
    g.set_buffer(h);
    assert!(g.can_write_pixel(&buffers, 1, 2));
    assert!(!g.can_write_pixel(&buffers, 4, 2));
    assert!(!g.can_write_pixel(&buffers, 0, 3));
    g.write_pixel_fast(&mut buffers, 1, 2, 0x00ff00);
    assert_eq!(buffers.get(h).data[2 * 4 + 1], 0x00ff00);
    g.cls(&mut buffers);
    assert_eq!(buffers.get(h).data, vec![0u32; 12]);
}

#[test]
fn window_without_screen() {
    let mut w = Window::new();
    let mut host = Headless::new();
    let mut buffers = Buffers::new();
    let mut g = Graphics::new();
    assert_eq!(w.key_down(&mut host, 1), None);
    assert_eq!(w.mouse_down(&mut host, 1), None);
    assert_eq!(w.mouse_x(&mut host), None);
    assert_eq!(w.mouse_y(&mut host), None);
    assert!(w.graphics(&mut buffers, &mut g, &mut host, 8, 4).is_ok());
    assert_eq!(w.back_buffer(), 0);
    assert_eq!(w.mouse_x(&mut host), Some(0));
    assert_eq!(w.mouse_y(&mut host), Some(0));
    assert!(w.is_open);
    assert_eq!(g.current_buffer, w.back_buffer_handle);
    assert_eq!(buffers.get(w.back_buffer_handle).data.len(), 32);
    assert_eq!(w.key_down(&mut host, 1), Some(false));
    assert_eq!(w.mouse_down(&mut host, 4), None);
    assert_eq!(w.mouse_position(&mut host), Some((0, 0)));
    assert!(w.flip(&buffers, &mut host));
    assert_eq!(w.graphics(&mut buffers, &mut g, &mut host, -1, 4), Err(RuntimeError::InvalidArgument));
}

#[test]
fn builtin_argument_errors() {
    let f = F32;
    let mut ctx = Context::new();
    let mut host = Headless::new();
    let r = call_builtin(Builtin::Abs, &vec![Value::Integer(1)], &mut ctx, &mut host, &f);
    assert!(matches!(r, Err(RuntimeError::TypeMismatch)));
    let r = call_builtin(Builtin::Rand, &vec![Value::Integer(1), Value::Integer(2), Value::Integer(3)], &mut ctx, &mut host, &f);
    assert!(matches!(r, Err(RuntimeError::InvalidArgument)));
    let r = call_builtin(Builtin::Rand, &vec![Value::Integer(5), Value::Integer(4)], &mut ctx, &mut host, &f);
    assert!(matches!(r, Err(RuntimeError::DivisionByZero)));
    let r = call_builtin(Builtin::Rand, &vec![Value::Integer(i32::MIN), Value::Integer(i32::MAX)], &mut ctx, &mut host, &f);
    assert!(matches!(r, Err(RuntimeError::IntegerOverflow)));
    let r = call_builtin(Builtin::WritePixelFast, &vec![Value::Integer(0)], &mut ctx, &mut host, &f);
    assert!(matches!(r, Err(RuntimeError::InvalidArgument)));
    let r = call_builtin(Builtin::KeyDown, &vec![Value::Integer(1)], &mut ctx, &mut host, &f);
    assert!(matches!(r, Err(RuntimeError::NoWindow)));
    let r = call_builtin(Builtin::Cls, &vec![], &mut ctx, &mut host, &f);
    assert!(matches!(r, Err(RuntimeError::InvalidHandle)));
}

#[test]
fn builtin_results() {
    let f = F32;
    let mut ctx = Context::new();
    let mut host = Headless::new();
    let r = call_builtin(Builtin::Abs, &vec![Value::Float((-2.5f32).to_bits())], &mut ctx, &mut host, &f);
    assert!(matches!(r, Ok(Value::Float(x)) if f32::from_bits(x) == 2.5));
    let r = call_builtin(Builtin::FloatCast, &vec![Value::Integer(3)], &mut ctx, &mut host, &f);
    assert!(matches!(r, Ok(Value::Float(x)) if f32::from_bits(x) == 3.0));
    let r = call_builtin(Builtin::Cos, &vec![Value::Integer(0)], &mut ctx, &mut host, &f);
    assert!(matches!(r, Ok(Value::Float(x)) if f32::from_bits(x) == 1.0));
    let r = call_builtin(Builtin::SeedRnd, &vec![Value::Integer(5)], &mut ctx, &mut host, &f);
    assert!(matches!(r, Ok(Value::Unit)));
    let r = call_builtin(Builtin::Rand, &vec![Value::Integer(0), Value::Integer(99)], &mut ctx, &mut host, &f);
    assert_eq!(int_of(&r), -6);
    let r = call_builtin(Builtin::AppTitle, &vec![Value::String(String::from("Demo"))], &mut ctx, &mut host, &f);
    assert!(matches!(r, Ok(Value::Unit)));
    assert_eq!(ctx.window.app_title, "Demo");
    let args = vec![Value::Integer(2), Value::Integer(2), Value::Integer(32), Value::Integer(2)];
    assert!(matches!(call_builtin(Builtin::Graphics, &args, &mut ctx, &mut host, &f), Ok(Value::Unit)));
    let px = vec![Value::Integer(1), Value::Integer(1), Value::Integer(9)];
    assert!(matches!(call_builtin(Builtin::WritePixelFast, &px, &mut ctx, &mut host, &f), Ok(Value::Unit)));
    assert_eq!(ctx.buffers.get(ctx.graphics.current_buffer).data, vec![0, 0, 0, 9]);
    // the pixel index is y * width + x, so (2, 0) is the first pixel of row 1
    let wrap = vec![Value::Integer(2), Value::Integer(0), Value::Integer(5)];
    assert!(matches!(call_builtin(Builtin::WritePixelFast, &wrap, &mut ctx, &mut host, &f), Ok(Value::Unit)));
    assert_eq!(ctx.buffers.get(ctx.graphics.current_buffer).data, vec![0, 0, 5, 9]);
    let out = vec![Value::Integer(0), Value::Integer(2), Value::Integer(9)];
    assert!(matches!(call_builtin(Builtin::WritePixelFast, &out, &mut ctx, &mut host, &f), Err(RuntimeError::InvalidHandle)));
    let r = call_builtin(Builtin::MouseDown, &vec![Value::Integer(7)], &mut ctx, &mut host, &f);
    assert!(matches!(r, Err(RuntimeError::InvalidArgument)));
    let r = call_builtin(Builtin::BackBuffer, &vec![], &mut ctx, &mut host, &f);
    assert_eq!(int_of(&r), 0);
}

#[test]
fn milliseconds_from_nanoseconds() {
    assert_eq!(milli_secs_from_ns(0), 0);
    assert_eq!(milli_secs_from_ns(1_999_999), 1);
    assert_eq!(milli_secs_from_ns(5_000_000_000), 5000);
    assert_eq!(milli_secs_from_ns(u64::MAX), (u64::MAX / 1_000_000) as i32);
}

#[test]
fn value_casts() {
    let f = F32;
    assert!(matches!(Value::Bool(true).cast_to_integer(&f), Value::Integer(1)));
    assert!(matches!(Value::Float(2.9f32.to_bits()).cast_to_integer(&f), Value::Integer(2)));
    assert!(matches!(Value::Integer(2).cast_to(&ValueType::Float, &f), Value::Float(x) if f32::from_bits(x) == 2.0));
    assert!(Value::Integer(1).can_cast_to(&ValueType::Float));
    assert!(!Value::String(String::new()).can_cast_to(&ValueType::Integer));
    assert!(matches!(Value::default(&ValueType::String), Value::String(s) if s.is_empty()));
}

#[test]
fn casting_to_the_own_type_gives_the_value_back() {
    let f = F32;
    let values = vec![
        Value::Unit,
        Value::Integer(-7),
        Value::Float(1.5f32.to_bits()),
        Value::Bool(true),
        Value::String(String::from("abc")),
    ];
    for v in values.iter() {
        let t = v.value_type();
        assert!(v.can_cast_to(&t));
        let c = v.cast_to(&t, &f);
        match (v, &c) {
            (Value::Unit, Value::Unit) => {},
            (Value::Integer(a), Value::Integer(b)) => assert_eq!(a, b),
            (Value::Float(a), Value::Float(b)) => assert_eq!(a, b),
            (Value::Bool(a), Value::Bool(b)) => assert_eq!(a, b),
            (Value::String(a), Value::String(b)) => assert_eq!(a, b),
            _ => panic!("cast changed the type"),
        }
    }
}

#[test]
fn image_operations() {
    let mut ctx = Context::new();
    assert_eq!(create_image(&mut ctx, 2, 3), 0);
    assert_eq!(create_image(&mut ctx, 1, 1), 1);
    assert_eq!(image_buffer(&ctx, 1), 1);
    assert_eq!(ctx.buffers.get(0).data.len(), 6);
    free_image(&mut ctx, 0);
    assert!(!ctx.images.is_live(0));
    assert!(ctx.buffers.is_live(0));
    assert_eq!(create_image(&mut ctx, 4, 4), 0);
    assert_eq!(image_buffer(&ctx, 0), 2);
    mid_handle(&mut ctx, 0);
    assert!(ctx.images.get(0).mid_handle);
    assert!(!ctx.images.get(1).mid_handle);
}
