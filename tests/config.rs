use exchange_config::config::ExchangeableConfig;
use exchange_config::param::{ConfigParam, ParamKind, WrongParamType};
use exchange_config::schema::{ExchangeFormat, Image, Item, Text, DEFAULT_SCALE_BITS};
use exchange_config::store::{decode_or_default, ConfigStore};

fn s(x: &str) -> String {
    x.to_string()
}

fn abc() -> ExchangeableConfig {
    let mut c = ExchangeableConfig::default();
    c.add(s("a"), ConfigParam::Integer(1));
    c.add(s("b"), ConfigParam::String(s("two")));
    c.add(s("c"), ConfigParam::Float(3.0f32.to_bits()));
    c
}

#[test]
fn keys_come_back_in_insertion_order() {
    let c = abc();
    assert_eq!(c.keys(), vec![s("a"), s("b"), s("c")]);
    assert_eq!(c.len(), 3);
}

#[test]
fn overwriting_keeps_position() {
    let mut c = abc();
    c.add(s("b"), ConfigParam::Integer(20));
    assert_eq!(c.keys(), vec![s("a"), s("b"), s("c")]);
    assert_eq!(c.len(), 3);
    assert!(matches!(c.get(s("b")), Some(ConfigParam::Integer(20))));
}

#[test]
fn get_absent_key_is_none() {
    let c = ExchangeableConfig::default();
    assert!(c.get(s("missing")).is_none());
    assert!(abc().get(s("d")).is_none());
}

#[test]
fn add_then_get_returns_value() {
    let mut c = ExchangeableConfig::default();
    c.add(s("label"), ConfigParam::String(s("hi")));
    match c.get(s("label")) {
        Some(ConfigParam::String(v)) => assert_eq!(v, "hi"),
        _ => panic!("expected the added string"),
    }
}

#[test]
fn add_existing_key_does_not_duplicate() {
    let mut c = ExchangeableConfig::default();
    c.add(s("k"), ConfigParam::Integer(1));
    c.add(s("k"), ConfigParam::Password(s("secret")));
    assert_eq!(c.len(), 1);
    assert_eq!(c.keys(), vec![s("k")]);
    assert!(matches!(c.get(s("k")), Some(ConfigParam::Password(p)) if p == "secret"));
}

#[test]
fn integer_view_of_integer() {
    assert_eq!(ConfigParam::Integer(5).as_u32(), Ok(5));
}

#[test]
fn integer_view_of_string_is_error() {
    assert_eq!(
        ConfigParam::String(s("x")).as_u32(),
        Err(WrongParamType { expected: ParamKind::Integer, actual: ParamKind::String })
    );
}

#[test]
fn string_views() {
    assert_eq!(ConfigParam::String(s("x")).as_string(), Ok(s("x")));
    assert_eq!(ConfigParam::Password(s("pw")).as_string(), Ok(s("pw")));
    assert_eq!(
        ConfigParam::Integer(1).as_string(),
        Err(WrongParamType { expected: ParamKind::String, actual: ParamKind::Integer })
    );
}

#[test]
fn float_views() {
    let p = ConfigParam::Float(2.0f32.to_bits());
    assert_eq!(p.as_f32_bits().map(f32::from_bits), Ok(2.0f32));
    assert_eq!(
        ConfigParam::Password(s("pw")).as_f32_bits(),
        Err(WrongParamType { expected: ParamKind::Float, actual: ParamKind::Password })
    );
    assert_eq!(p.kind(), ParamKind::Float);
}

#[test]
fn clone_keeps_value() {
    let p = ConfigParam::Password(s("pw"));
    assert!(matches!(p.clone(), ConfigParam::Password(v) if v == "pw"));
}

#[test]
fn text_default() {
    let t = Text::default();
    assert_eq!(t.value, "");
    assert_eq!((t.x, t.y), (0, 0));
    assert_eq!(f32::from_bits(t.scale_x), 16.0f32);
    assert_eq!(f32::from_bits(t.scale_y), 16.0f32);
    assert_eq!(DEFAULT_SCALE_BITS, 16.0f32.to_bits());
    assert_eq!(t.color, vec![255u8, 255, 255]);
    assert!(!t.symbol);
}

#[test]
fn exchange_format_new_and_default() {
    assert!(ExchangeFormat::default().items.is_empty());
    let img = Image { value: vec![1, 2, 3], x: 1, y: 2, width: 3, height: 4 };
    let f = ExchangeFormat::new(vec![Item::Text(Text::default()), Item::Image(img)]);
    assert_eq!(f.items.len(), 2);
    assert!(matches!(&f.items[0], Item::Text(_)));
    assert!(matches!(&f.items[1], Item::Image(i) if i.width == 3 && i.value == vec![1u8, 2, 3]));
}

#[test]
fn snapshot_is_equal_copy() {
    let c = abc();
    let d = c.snapshot();
    assert_eq!(d.keys(), c.keys());
    assert!(matches!(d.get(s("a")), Some(ConfigParam::Integer(1))));
    assert!(matches!(d.get(s("c")), Some(ConfigParam::Float(b)) if b == 3.0f32.to_bits()));
}

#[test]
fn store_replace_and_read() {
    let mut st = ConfigStore::new();
    assert_eq!(st.read_snapshot().len(), 0);
    st.replace(abc());
    assert_eq!(st.read_snapshot().keys(), vec![s("a"), s("b"), s("c")]);
}

#[test]
fn store_replacements_keep_last_whole() {
    let mut a = ExchangeableConfig::default();
    a.add(s("x"), ConfigParam::Integer(1));
    a.add(s("y"), ConfigParam::Integer(2));
    let mut b = ExchangeableConfig::default();
    b.add(s("z"), ConfigParam::Integer(3));
    let mut st = ConfigStore::new();
    st.replace(a.snapshot());
    st.replace(b.snapshot());
    assert_eq!(st.read_snapshot().keys(), vec![s("z")]);
    st.replace(b);
    st.replace(a);
    assert_eq!(st.read_snapshot().keys(), vec![s("x"), s("y")]);
}

#[test]
fn failed_decode_falls_back_to_empty() {
    assert_eq!(decode_or_default(None).len(), 0);
    assert_eq!(decode_or_default(Some(abc())).len(), 3);
    let mut st = ConfigStore::new();
    st.replace(abc());
    st.replace_from_decoded(None);
    assert_eq!(st.read_snapshot().len(), 0);
    st.replace_from_decoded(Some(abc()));
    assert_eq!(st.read_snapshot().keys(), vec![s("a"), s("b"), s("c")]);
}
