use rnr::ast::{Literal, Type};

#[test]
fn display_literal() {
    println!("{}", Literal::Int(3).to_string());
    println!("{}", Literal::Bool(false).to_string());
    println!("{}", Literal::Unit.to_string());
    assert_eq!(Literal::Int(3).to_string(), "3");
    assert_eq!(Literal::Bool(false).to_string(), "false");
    assert_eq!(Literal::Unit.to_string(), "()");
}

#[test]
fn display_type() {
    assert_eq!(Type::I32.to_string(), "i32");
    assert_eq!(Type::Bool.to_string(), "bool");
    assert_eq!(Type::Unit.to_string(), "()");
    assert_eq!(Type::String.to_string(), "String");
}
