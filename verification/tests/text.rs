use pulse_simple::text::c_string;
use pulse_simple::Error;

#[test]
fn plain_text_gets_one_terminator() {
    assert_eq!(c_string("Test"), Ok(vec![b'T', b'e', b's', b't', 0]));
}

#[test]
fn empty_text_is_only_the_terminator() {
    assert_eq!(c_string(""), Ok(vec![0]));
}

#[test]
fn text_keeps_its_utf8_bytes() {
    assert_eq!(c_string("é"), Ok(vec![0xC3, 0xA9, 0]));
    assert_eq!(c_string("音"), Ok(vec![0xE9, 0x9F, 0xB3, 0]));
    let text = "Lautsprecher größer";
    let mut expected = text.as_bytes().to_vec();
    expected.push(0);
    assert_eq!(c_string(text), Ok(expected));
}

#[test]
fn embedded_terminator_is_refused() {
    assert_eq!(c_string("Te\0st"), Err(Error::Configuration));
    assert_eq!(c_string("\0"), Err(Error::Configuration));
    assert_eq!(c_string("Test\0"), Err(Error::Configuration));
    assert_eq!(c_string("\0Test"), Err(Error::Configuration));
}
