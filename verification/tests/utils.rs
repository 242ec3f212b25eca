use wasm_socket::arrays::create_array;
use wasm_socket::arrays::sum_array;
use wasm_socket::math::add;
use wasm_socket::math::divide;
use wasm_socket::math::multiply;
use wasm_socket::math::subtract;
use wasm_socket::parse::safe_parse_int;
use wasm_socket::text::count_words;
use wasm_socket::text::process_string;
use wasm_socket::text::reverse_string;
use wasm_socket::text::to_uppercase;

#[test]
fn test_add() {
    assert_eq!(add(2, 3), 5);
    assert_eq!(add(-1, 1), 0);
}

#[test]
fn test_subtract() {
    assert_eq!(subtract(5, 3), 2);
    assert_eq!(subtract(0, 5), -5);
}

#[test]
fn test_multiply() {
    assert_eq!(multiply(3, 4), 12);
    assert_eq!(multiply(-2, 3), -6);
}

#[test]
fn test_divide() {
    assert_eq!(divide(10, 2), Ok(5));
    assert_eq!(divide(7, 3), Ok(2));
    assert!(divide(5, 0).is_err());
}

#[test]
fn test_divide_truncates_toward_zero() {
    assert_eq!(divide(-7, 3), Ok(-2));
    assert_eq!(divide(7, -3), Ok(-2));
    assert_eq!(divide(-7, -3), Ok(2));
    assert_eq!(divide(i32::MIN, 2), Ok(-1073741824));
    assert_eq!(divide(i32::MAX, -1), Ok(-i32::MAX));
}

#[test]
fn test_divide_error_message() {
    assert_eq!(divide(5, 0), Err(String::from("Division by zero")));
}

#[test]
fn test_reverse_string() {
    assert_eq!(reverse_string("hello"), "olleh");
    assert_eq!(reverse_string(""), "");
}

#[test]
fn test_reverse_string_round_trip() {
    for s in ["", "a", "ab c", "épée", "hello world"] {
        assert_eq!(reverse_string(&reverse_string(s)), s);
    }
}

#[test]
fn test_to_uppercase() {
    assert_eq!(to_uppercase("hello"), "HELLO");
    assert_eq!(to_uppercase("World"), "WORLD");
}

#[test]
fn test_to_uppercase_idempotent() {
    for s in ["hello", "Grüße", "mixed CASE 123", ""] {
        let once = to_uppercase(s);
        assert_eq!(to_uppercase(&once), once);
    }
}

#[test]
fn test_count_words() {
    assert_eq!(count_words("hello world"), 2);
    assert_eq!(count_words(""), 0);
    assert_eq!(count_words("single"), 1);
}

#[test]
fn test_count_words_whitespace_runs() {
    assert_eq!(count_words("  hello   world  "), 2);
    assert_eq!(count_words("\tone\ntwo\r\nthree "), 3);
    assert_eq!(count_words("   \t \n "), 0);
}

#[test]
fn test_process_string() {
    assert_eq!(process_string("abc"), "Processed: abc (length: 3)");
    assert_eq!(process_string(""), "Processed:  (length: 0)");
    // the reported length counts bytes, not characters
    assert_eq!(process_string("é"), "Processed: é (length: 2)");
}

#[test]
fn test_create_array() {
    assert_eq!(create_array(5), vec![0, 1, 2, 3, 4]);
    assert_eq!(create_array(0), Vec::<i32>::new());
}

#[test]
fn test_sum_array() {
    assert_eq!(sum_array(&[1, 2, 3, 4]), 10);
    assert_eq!(sum_array(&[]), 0);
}

#[test]
fn test_sum_array_negative() {
    assert_eq!(sum_array(&[-5, 2, 3]), 0);
    assert_eq!(sum_array(&[i32::MAX, -1, -i32::MAX]), -1);
}

#[test]
fn test_safe_parse_int() {
    assert_eq!(safe_parse_int("123"), Ok(123));
    assert_eq!(safe_parse_int("-456"), Ok(-456));
    assert!(safe_parse_int("abc").is_err());
    assert!(safe_parse_int("12.34").is_err());
}

#[test]
fn test_safe_parse_int_bounds_and_signs() {
    assert_eq!(safe_parse_int("2147483647"), Ok(i32::MAX));
    assert_eq!(safe_parse_int("-2147483648"), Ok(i32::MIN));
    assert!(safe_parse_int("2147483648").is_err());
    assert!(safe_parse_int("-2147483649").is_err());
    assert_eq!(safe_parse_int("+123"), Ok(123));
    assert_eq!(safe_parse_int("007"), Ok(7));
    assert!(safe_parse_int("").is_err());
    assert!(safe_parse_int("-").is_err());
    assert!(safe_parse_int("+").is_err());
    assert!(safe_parse_int(" 1").is_err());
    assert!(safe_parse_int("1 ").is_err());
}

#[test]
fn test_safe_parse_int_error_message() {
    assert_eq!(
        safe_parse_int("abc"),
        Err(String::from("Cannot parse 'abc' as integer"))
    );
}
