use blitz::ast;
use blitz::compiler::{compile, compile_checked, CompileError};
use blitz::error::RuntimeError;
use blitz::il;
use blitz::interpreter::interpret;
use blitz::parser::{parse, reduce_bin_op_expr, reduce_un_op_expr};
use blitz::stdlib::window::{Headless, Host, HostLog, Key, MouseButton};
use blitz::value::{FloatOps, FloatOrder};

struct F32;

impl FloatOps for F32 {
    fn parse_literal(&self, text: &str) -> u32 {
        text.parse::<f32>().map(|f| f.to_bits()).unwrap_or(0)
    }
    fn from_int(&self, x: i32) -> u32 {
        (x as f32).to_bits()
    }
    fn to_int(&self, x: u32) -> i32 {
        f32::from_bits(x) as i32
    }
    fn add(&self, a: u32, b: u32) -> u32 {
        (f32::from_bits(a) + f32::from_bits(b)).to_bits()
    }
    fn sub(&self, a: u32, b: u32) -> u32 {
        (f32::from_bits(a) - f32::from_bits(b)).to_bits()
    }
    fn mul(&self, a: u32, b: u32) -> u32 {
        (f32::from_bits(a) * f32::from_bits(b)).to_bits()
    }
    fn div(&self, a: u32, b: u32) -> u32 {
        (f32::from_bits(a) / f32::from_bits(b)).to_bits()
    }
    fn compare(&self, a: u32, b: u32) -> FloatOrder {
        let (x, y) = (f32::from_bits(a), f32::from_bits(b));
        if x < y {
            FloatOrder::Less
        } else if x > y {
            FloatOrder::Greater
        } else if x == y {
            FloatOrder::Equal
        } else {
            FloatOrder::Unordered
        }
    }
    fn sin_degrees(&self, x: u32) -> u32 {
        (f32::from_bits(x) / 180.0 * std::f32::consts::PI).sin().to_bits()
    }
    fn cos_degrees(&self, x: u32) -> u32 {
        (f32::from_bits(x) / 180.0 * std::f32::consts::PI).cos().to_bits()
    }
}

/// A window system that records what the program shows, with the Escape key
/// held down after a given number of frames.
struct Recorder {
    windows: Vec<(String, i32, i32)>,
    frames: Vec<Vec<u32>>,
    escape_after: usize,
}

impl Recorder {
    fn new(escape_after: usize) -> Recorder {
        Recorder { windows: Vec::new(), frames: Vec::new(), escape_after }
    }
}

impl Host for Recorder {
    // The record of requests exists only in the library's proofs; nothing
    // calls this at run time.
    fn requests(&self) -> HostLog {
        unreachable!("the request record is not kept at run time")
    }

    fn open_window(&mut self, title: &str, width: i32, height: i32) -> bool {
        self.windows.push((title.to_string(), width, height));
        true
    }
    fn present(&mut self, pixels: &Vec<u32>, _width: i32, _height: i32) {
        self.frames.push(pixels.clone());
    }
    fn key_down(&mut self, key: Key) -> bool {
        key == Key::Escape && self.frames.len() >= self.escape_after
    }
    fn mouse_down(&mut self, button: MouseButton) -> bool {
        button == MouseButton::Left
    }
    fn mouse_position(&mut self) -> Option<(i32, i32)> {
        Some((3, 1))
    }
}

fn compiled(source: &str) -> il::Program {
    let root = parse(&String::from(source)).unwrap();
    assert!(compile_checked(&root, &F32).is_ok());
    compile(&root, &F32)
}

fn run(source: &str, host: &mut Recorder) -> Result<(), RuntimeError> {
    interpret(&compiled(source), host, &F32, 1_000_000)
}

#[test]
fn draws_a_pixel_and_shows_it() {
    let mut host = Recorder::new(0);
    let src = "AppTitle \"Demo\"\nGraphics 4,3,32,2\nWritePixelFast 1,2,255\nFlip\n";
    assert_eq!(run(src, &mut host), Ok(()));
    assert_eq!(host.windows, vec![(String::from("Demo"), 4, 3)]);
    assert_eq!(host.frames.len(), 1);
    let mut expected = vec![0u32; 12];
    expected[2 * 4 + 1] = 255;
    assert_eq!(host.frames[0], expected);
}

#[test]
fn main_loop_runs_until_escape() {
    let mut host = Recorder::new(3);
    let src = "Global x = 0\nGraphics 2,2,32,2\nWhile Not KeyDown(1)\nWritePixelFast x,0,x+1\nx = x + 1\nFlip\nWend\n";
    assert_eq!(run(src, &mut host), Ok(()));
    assert_eq!(host.frames.len(), 3);
    assert_eq!(host.frames[0], vec![1, 0, 0, 0]);
    assert_eq!(host.frames[1], vec![1, 2, 0, 0]);
    assert_eq!(host.frames[2], vec![1, 2, 3, 0]);
}

#[test]
fn for_loop_and_if() {
    let mut host = Recorder::new(0);
    let src = "Global i\nGraphics 4,1,32,2\nFor i = 0 To 3\nIf i > 1\nWritePixelFast i,0,7\nElse\nWritePixelFast i,0,5\nEndIf\nNext\nFlip\n";
    assert_eq!(run(src, &mut host), Ok(()));
    assert_eq!(host.frames, vec![vec![5, 5, 7, 7]]);
}

#[test]
fn operators_group_to_the_right() {
    let mut host = Recorder::new(0);
    // 8 - 4 - 2 is read as 8 - (4 - 2)
    let src = "Global x\nGraphics 8,1,32,2\nx = 8 - 4 - 2\nWritePixelFast x,0,1\nFlip\n";
    assert_eq!(run(src, &mut host), Ok(()));
    assert_eq!(host.frames[0][6], 1);
}

#[test]
fn mouse_and_globals() {
    let mut host = Recorder::new(0);
    let src = "Global c = 3\nGraphics 4,2,32,2\nIf MouseDown(1) Then WritePixelFast MouseX(),MouseY(),c\nFlip\n";
    assert_eq!(run(src, &mut host), Ok(()));
    assert_eq!(host.frames[0][1 * 4 + 3], 3);
}

#[test]
fn input_without_window_fails() {
    let mut host = Recorder::new(0);
    assert_eq!(run("x = KeyDown(1)\n", &mut host), Err(RuntimeError::NoWindow));
}

#[test]
fn runtime_errors_stop_the_program() {
    let mut host = Recorder::new(0);
    assert_eq!(run("x = 1 / 0\n", &mut host), Err(RuntimeError::DivisionByZero));
    assert_eq!(run("x = 2147483647 + 1\n", &mut host), Err(RuntimeError::IntegerOverflow));
    assert_eq!(run("Graphics 2,2,32,2\nWritePixelFast 5,5,1\n", &mut host), Err(RuntimeError::InvalidHandle));
}

#[test]
fn endless_loop_runs_out_of_fuel() {
    let program = compiled("While True\nWend\n");
    assert_eq!(interpret(&program, &mut Headless::new(), &F32, 500), Err(RuntimeError::OutOfFuel));
}

#[test]
fn parse_stops_at_the_first_unreadable_node() {
    let root = parse(&String::from("x = 1\n@@@\ny = 2\n")).unwrap();
    assert_eq!(root.nodes.len(), 1);
    let root = parse(&String::from("")).unwrap();
    assert_eq!(root.nodes.len(), 0);
}

#[test]
fn parse_statement_shapes() {
    let root = parse(&String::from("Global score% = 10\nCls\nx# = 1.5 * -y\n; a comment\nFoo 1, \"a\"\n")).unwrap();
    assert_eq!(root.nodes.len(), 4);
    match &root.nodes[0] {
        ast::Node::GlobalVariableDecl(d) => {
            assert_eq!(d.name, "score");
            assert!(matches!(d.type_specifier, Some(ast::TypeSpecifier::Int)));
            assert!(matches!(d.init_expr.as_deref(), Some(ast::Expr::IntegerLiteral(10))));
        }
        other => panic!("{:?}", other),
    }
    match &root.nodes[1] {
        ast::Node::Statement(ast::Statement::FunctionCall(c)) => {
            assert_eq!(c.function_name, "Cls");
            assert_eq!(c.arguments.len(), 0);
        }
        other => panic!("{:?}", other),
    }
    match &root.nodes[2] {
        ast::Node::Statement(ast::Statement::Assignment(a)) => match &*a.expr {
            ast::Expr::BinOp(b) => {
                assert_eq!(b.op, ast::Op::Mul);
                assert!(matches!(&*b.lhs, ast::Expr::FloatLiteral(t) if t == "1.5"));
                assert!(matches!(&*b.rhs, ast::Expr::UnOp(u) if u.op == ast::Op::Neg));
            }
            other => panic!("{:?}", other),
        },
        other => panic!("{:?}", other),
    }
    match &root.nodes[3] {
        ast::Node::Statement(ast::Statement::FunctionCall(c)) => {
            assert_eq!(c.function_name, "Foo");
            assert_eq!(c.arguments.len(), 2);
            assert!(matches!(&*c.arguments[1], ast::Expr::StringLiteral(s) if s == "a"));
        }
        other => panic!("{:?}", other),
    }
}

#[test]
fn keywords_are_not_names() {
    let root = parse(&String::from("Wend = 1\n")).unwrap();
    assert_eq!(root.nodes.len(), 0);
}

#[test]
fn reduce_operator_chains() {
    let ops = vec![ast::Op::Not, ast::Op::Neg];
    let e = reduce_un_op_expr(&ops, Box::new(ast::Expr::IntegerLiteral(1)), 0);
    match *e {
        ast::Expr::UnOp(u) => {
            assert_eq!(u.op, ast::Op::Not);
            assert!(matches!(*u.expr, ast::Expr::UnOp(ref v) if v.op == ast::Op::Neg));
        }
        other => panic!("{:?}", other),
    }
    let e = reduce_un_op_expr(&ops, Box::new(ast::Expr::IntegerLiteral(1)), 2);
    assert!(matches!(*e, ast::Expr::IntegerLiteral(1)));
    let rhss = vec![
        (ast::Op::Sub, Box::new(ast::Expr::IntegerLiteral(4))),
        (ast::Op::Add, Box::new(ast::Expr::IntegerLiteral(2))),
    ];
    let e = reduce_bin_op_expr(Box::new(ast::Expr::IntegerLiteral(8)), rhss, 0);
    match *e {
        ast::Expr::BinOp(b) => {
            assert_eq!(b.op, ast::Op::Sub);
            assert!(matches!(*b.lhs, ast::Expr::IntegerLiteral(8)));
            assert!(matches!(*b.rhs, ast::Expr::BinOp(ref c) if c.op == ast::Op::Add));
        }
        other => panic!("{:?}", other),
    }
}

#[test]
fn compile_errors() {
    let root = parse(&String::from("Foo 1\n")).unwrap();
    assert_eq!(compile_checked(&root, &F32).err(), Some(CompileError::UnresolvedFunction));
    let root = parse(&String::from("x = y + 1\n")).unwrap();
    assert_eq!(compile_checked(&root, &F32).err(), Some(CompileError::UnresolvedVariable));
    let root = parse(&String::from("x = True + 1\n")).unwrap();
    assert_eq!(compile_checked(&root, &F32).err(), Some(CompileError::UnsupportedBinOp));
    let root = parse(&String::from("Select 1\nCase 1\nx = 2\nEnd Select\n")).unwrap();
    assert_eq!(root.nodes.len(), 1);
    assert_eq!(compile_checked(&root, &F32).err(), Some(CompileError::UnsupportedStatement));
}

#[test]
fn compiled_function_table_lists_library_functions_after_the_program() {
    let p = compiled("x = 1\n");
    assert_eq!(p.function_table.len(), 23);
    match &p.function_table[0] {
        il::FunctionTableEntry::FunctionImpl(f) => assert_eq!(f.name, "Float"),
        other => panic!("{:?}", other),
    }
    assert_eq!(p.un_op_impls_table.len(), 3);
    assert_eq!(p.bin_op_impls_table.len(), 27);
    assert_eq!(p.main_function.signature.name, "$main");
}

#[test]
fn malformed_programs_are_refused() {
    let mut p = compiled("Cls\n");
    match &mut p.main_function.body[0] {
        il::Statement::FunctionCall(c) => c.function_index = 99,
        other => panic!("{:?}", other),
    }
    assert_eq!(interpret(&p, &mut Headless::new(), &F32, 1000), Err(RuntimeError::MalformedProgram));
}

#[test]
fn end_is_not_executed() {
    let root = ast::Root { nodes: vec![ast::Node::End] };
    let p = compile_checked(&root, &F32).unwrap();
    assert_eq!(interpret(&p, &mut Headless::new(), &F32, 1000), Err(RuntimeError::UnsupportedStatement));
}

#[test]
fn read_past_the_data_fails() {
    let read_x = || {
        ast::Node::Statement(ast::Statement::Read(ast::LValue::VariableRef(ast::VariableRef {
            name: String::from("x"),
            type_specifier: None,
        })))
    };
    let data = ast::Node::Data(ast::Data { values: vec![Box::new(ast::Expr::IntegerLiteral(5))] });
    let x = ast::Node::GlobalVariableDecl(ast::VariableDecl {
        name: String::from("x"),
        type_specifier: None,
        init_expr: None,
    });
    let root = ast::Root { nodes: vec![x, data, read_x()] };
    let p = compile_checked(&root, &F32).unwrap();
    assert_eq!(p.data_table.len(), 1);
    assert_eq!(interpret(&p, &mut Headless::new(), &F32, 1000), Ok(()));
    let data = ast::Node::Data(ast::Data { values: vec![Box::new(ast::Expr::IntegerLiteral(5))] });
    let x = ast::Node::GlobalVariableDecl(ast::VariableDecl {
        name: String::from("x"),
        type_specifier: None,
        init_expr: None,
    });
    let root = ast::Root { nodes: vec![x, data, read_x(), read_x()] };
    let p = compile_checked(&root, &F32).unwrap();
    assert_eq!(interpret(&p, &mut Headless::new(), &F32, 1000), Err(RuntimeError::OutOfData));
}

#[test]
fn variables_read_back_what_was_assigned() {
    let mut host = Recorder::new(0);
    let src = "Global a = 1\nGlobal b = 2\nGraphics 3,1,32,2\na = 7\nb = a + b\na = 9\nWritePixelFast 0,0,a\nWritePixelFast 1,0,b\nFlip\n";
    assert_eq!(run(src, &mut host), Ok(()));
    assert_eq!(host.frames.len(), 1);
    assert_eq!(host.frames[0], vec![9, 9, 0]);
}

#[test]
fn invalid_window_size_opens_no_window() {
    let mut host = Recorder::new(0);
    let src = "AppTitle \"T\"\nGraphics 100000,100000,32,2\n";
    assert_eq!(run(src, &mut host), Err(RuntimeError::InvalidArgument));
    assert!(host.windows.is_empty());
}
