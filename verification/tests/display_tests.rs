use emblize_py::display::{
    array_repr, array_str, enum_repr, enum_str, scalar_repr, some_repr, vec_repr, vec_str,
};

fn strings(items: &[&str]) -> Vec<String> {
    items.iter().map(|s| s.to_string()).collect()
}

#[test]
fn enum_printing() {
    assert_eq!(enum_str(3, Some("x")), "Enum(3, x)");
    assert_eq!(enum_str(255, None), "Enum(255)");
    assert_eq!(enum_str(40, None), "Enum(40)");
    assert_eq!(enum_repr(0, None), "Enum(0, None)");
    assert_eq!(enum_repr(107, Some("U8(1)")), "Enum(107, U8(1))");
}

#[test]
fn wrapper_printing() {
    assert_eq!(some_repr("5"), "Some(5)");
    assert_eq!(scalar_repr("U8", "7"), "U8(7)");
    assert_eq!(scalar_repr("F64", "1.5"), "F64(1.5)");
}

#[test]
fn array_printing() {
    assert_eq!(array_str(&strings(&[])), "[]");
    assert_eq!(array_str(&strings(&["1", "2", "3"])), "[1, 2, 3]");
    assert_eq!(array_repr(&strings(&["a"]), "U8"), "Array[a, dtype=U8]");
    assert_eq!(array_repr(&strings(&[]), "bool"), "Array[, dtype=bool]");
}

#[test]
fn vector_printing() {
    assert_eq!(vec_str(&strings(&["1", "2"])), "(1, 2)");
    assert_eq!(vec_repr("Vec2", &strings(&["1", "2"]), "F32"), "Vec2(1, 2, dtype=F32)");
    assert_eq!(vec_repr("Vec4", &strings(&["0", "0", "0", "1"]), ""), "Vec4(0, 0, 0, 1, dtype=)");
}
