use bytecode::node::{ByteCode, Error};
use bytecode::pool::handle;

#[test]
fn curried_call_renders_as_three_tokens() {
    let mut h = handle();
    let s = h.insert(ByteCode::Symbol(1)).unwrap();
    let a = h.insert(ByteCode::Number(12)).unwrap();
    let c = h.insert(ByteCode::Call(s, a)).unwrap();
    let b = h.insert(ByteCode::Number(123)).unwrap();
    let top = h.insert(ByteCode::Call(c, b)).unwrap();
    assert_eq!(h.render(top).unwrap(), "1 12 123");
}

#[test]
fn rendering_twice_gives_the_same_text() {
    let mut h = handle();
    let a = h.insert(ByteCode::Number(-4)).unwrap();
    let b = h.insert(ByteCode::Symbol(9)).unwrap();
    let d = h.insert(ByteCode::Dict(a)).unwrap();
    let top = h.insert(ByteCode::Assign(b, d)).unwrap();
    let first = h.render(top);
    let second = h.render(top);
    assert_eq!(first, second);
    assert_eq!(first.unwrap(), "9:[-4;]");
}

#[test]
fn lambda_without_params_uses_implicit_x() {
    let mut h = handle();
    let nil = h.insert(ByteCode::Nil).unwrap();
    let body = h.insert(ByteCode::Number(7)).unwrap();
    let f = h.insert(ByteCode::Lambda(nil, body)).unwrap();
    assert_eq!(h.render(f).unwrap(), "{[x]7}");
}

#[test]
fn lambda_params_are_joined_by_semicolons() {
    let mut h = handle();
    let sa = h.insert(ByteCode::Symbol(1)).unwrap();
    let sb = h.insert(ByteCode::Symbol(2)).unwrap();
    let na = h.insert(ByteCode::Name(sa)).unwrap();
    let nb = h.insert(ByteCode::Name(sb)).unwrap();
    let params = h.insert(ByteCode::Cons(na, nb)).unwrap();
    let x = h.insert(ByteCode::Number(3)).unwrap();
    let y = h.insert(ByteCode::Number(4)).unwrap();
    let body = h.insert(ByteCode::Call(x, y)).unwrap();
    let f = h.insert(ByteCode::Lambda(params, body)).unwrap();
    assert_eq!(h.render(f).unwrap(), "{[1;2]3 4}");
    assert_eq!(h.render(params).unwrap(), "1 2");
}

#[test]
fn nested_lambda_in_params_takes_semicolons_throughout() {
    let mut h = handle();
    let one = h.insert(ByteCode::Number(1)).unwrap();
    let two = h.insert(ByteCode::Number(2)).unwrap();
    let inner_body = h.insert(ByteCode::Cons(one, two)).unwrap();
    let nil = h.insert(ByteCode::Nil).unwrap();
    let inner = h.insert(ByteCode::Lambda(nil, inner_body)).unwrap();
    let params = h.insert(ByteCode::Cons(inner, one)).unwrap();
    let f = h.insert(ByteCode::Lambda(params, two)).unwrap();
    assert_eq!(h.render(f).unwrap(), "{[{[x]1;2};1]2}");
}

#[test]
fn leaves_render_as_their_values() {
    let mut h = handle();
    let n = h.insert(ByteCode::Number(i64::MIN)).unwrap();
    let m = h.insert(ByteCode::Number(0)).unwrap();
    let x = h.insert(ByteCode::Hexlit(255)).unwrap();
    let t = h.insert(ByteCode::Bool(true)).unwrap();
    let f = h.insert(ByteCode::Bool(false)).unwrap();
    let s = h.insert(ByteCode::Symbol(65535)).unwrap();
    let nil = h.insert(ByteCode::Nil).unwrap();
    assert_eq!(h.render(n).unwrap(), "-9223372036854775808");
    assert_eq!(h.render(m).unwrap(), "0");
    assert_eq!(h.render(x).unwrap(), "0x255");
    assert_eq!(h.render(t).unwrap(), "true");
    assert_eq!(h.render(f).unwrap(), "false");
    assert_eq!(h.render(s).unwrap(), "65535");
    assert_eq!(h.render(nil).unwrap(), "");
}

#[test]
fn composite_nodes_render_with_their_punctuation() {
    let mut h = handle();
    let a = h.insert(ByteCode::Number(1)).unwrap();
    let b = h.insert(ByteCode::Number(2)).unwrap();
    let c = h.insert(ByteCode::Number(3)).unwrap();
    let verb = h.insert(ByteCode::Verb(43, a, b)).unwrap();
    let adverb = h.insert(ByteCode::Adverb(7, b, c)).unwrap();
    let cond = h.insert(ByteCode::Cond(a, b, c)).unwrap();
    let dict = h.insert(ByteCode::Dict(verb)).unwrap();
    let list = h.insert(ByteCode::List(cond)).unwrap();
    let io = h.insert(ByteCode::Ioverb(adverb)).unwrap();
    let cell = h.insert(ByteCode::Cell(a)).unwrap();
    let name_int = h.insert(ByteCode::NameInt(b)).unwrap();
    let sym_int = h.insert(ByteCode::SymbolInt(c)).unwrap();
    assert_eq!(h.render(verb).unwrap(), "1432");
    assert_eq!(h.render(adverb).unwrap(), "273");
    assert_eq!(h.render(cond).unwrap(), "$[1;2;3]");
    assert_eq!(h.render(dict).unwrap(), "[1432;]");
    assert_eq!(h.render(list).unwrap(), "$[1;2;3]");
    assert_eq!(h.render(io).unwrap(), "273");
    assert_eq!(h.render(cell).unwrap(), "1");
    assert_eq!(h.render(name_int).unwrap(), "2");
    assert_eq!(h.render(sym_int).unwrap(), "3");
}

#[test]
fn sequences_have_no_text() {
    let mut h = handle();
    let a = h.insert(ByteCode::Number(1)).unwrap();
    let s = h.insert(ByteCode::Sequence(a)).unwrap();
    let si = h.insert(ByteCode::SequenceInt(a)).unwrap();
    let wrapped = h.insert(ByteCode::Call(a, s)).unwrap();
    assert_eq!(h.render(s), Err(Error::NotImplemented));
    assert_eq!(h.render(si), Err(Error::NotImplemented));
    assert_eq!(h.render(wrapped), Err(Error::NotImplemented));
    assert_eq!(h.render(a).unwrap(), "1");
}
