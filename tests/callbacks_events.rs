use std::sync::mpsc::channel;

use fruitbasket::{
    create_logger, kAEGetURL, kInternetEventClass, keyDirectObject, parse_url_event, same_key,
    ActivationPolicy, AppleEventDescriptor, CallbackTable, FruitCallbackKey, FruitError,
    FruitStopper, LogDir,
};

#[test]
fn url_event_with_matching_tags() {
    let e = AppleEventDescriptor {
        event_class: kInternetEventClass,
        event_id: kAEGetURL,
        direct_object: Some("fruitbasket://test".to_string()),
    };
    assert_eq!(parse_url_event(Some(&e)), "fruitbasket://test");
}

#[test]
fn url_event_with_other_tags_is_empty() {
    let e = AppleEventDescriptor {
        event_class: 0x61657674,
        event_id: kAEGetURL,
        direct_object: Some("fruitbasket://test".to_string()),
    };
    assert_eq!(parse_url_event(Some(&e)), "");
    let e = AppleEventDescriptor {
        event_class: kInternetEventClass,
        event_id: keyDirectObject,
        direct_object: Some("fruitbasket://test".to_string()),
    };
    assert_eq!(parse_url_event(Some(&e)), "");
    let e = AppleEventDescriptor { event_class: kInternetEventClass, event_id: kAEGetURL, direct_object: None };
    assert_eq!(parse_url_event(Some(&e)), "");
    assert_eq!(parse_url_event(None), "");
}

#[test]
fn register_replaces_handler_for_same_key() {
    let mut t: CallbackTable<u32> = CallbackTable::new();
    assert_eq!(t.len(), 0);
    t.register(FruitCallbackKey::Method("applicationWillFinishLaunching:"), 1);
    t.register(FruitCallbackKey::Method("handleEvent:withReplyEvent:"), 2);
    t.register(FruitCallbackKey::Object(7), 3);
    assert_eq!(t.len(), 3);
    t.register(FruitCallbackKey::Method("handleEvent:withReplyEvent:"), 4);
    assert_eq!(t.len(), 3);
    assert_eq!(t.get(&FruitCallbackKey::Method("handleEvent:withReplyEvent:")), Some(&4));
    assert_eq!(t.get(&FruitCallbackKey::Method("applicationWillFinishLaunching:")), Some(&1));
    assert_eq!(t.get(&FruitCallbackKey::Object(7)), Some(&3));
    assert_eq!(t.get(&FruitCallbackKey::Object(8)), None);
    assert_eq!(t.get(&FruitCallbackKey::Method("application:openFile:")), None);
}

#[test]
fn keys_compare_by_content() {
    let owned = String::from("handleEvent:withReplyEvent:");
    let leaked: &'static str = Box::leak(owned.into_boxed_str());
    assert!(same_key(&FruitCallbackKey::Method("handleEvent:withReplyEvent:"), &FruitCallbackKey::Method(leaked)));
    assert!(!same_key(&FruitCallbackKey::Method("a"), &FruitCallbackKey::Object(0)));
    assert!(!same_key(&FruitCallbackKey::Object(1), &FruitCallbackKey::Object(2)));
}

#[test]
fn stopper_and_its_clones_reach_the_channel() {
    let (tx, rx) = channel::<()>();
    let stopper = FruitStopper::new(tx);
    let other = stopper.clone();
    other.stop();
    stopper.stop();
    assert!(rx.try_recv().is_ok());
    assert!(rx.try_recv().is_ok());
    assert!(rx.try_recv().is_err());
    drop(rx);
    stopper.stop();
}

#[test]
fn activation_policy_codes() {
    assert_eq!(ActivationPolicy::Regular.native_value(), 0);
    assert_eq!(ActivationPolicy::Accessory.native_value(), 1);
    assert_eq!(ActivationPolicy::Prohibited.native_value(), 2);
}

#[test]
fn error_text_and_logger() {
    assert_eq!(FruitError::IOError("disk full".to_string()).to_string(), "IOError(\"disk full\")");
    assert_eq!(FruitError::UnsupportedPlatform("x".to_string()).to_string(), "UnsupportedPlatform(\"x\")");
    assert_eq!(FruitError::GeneralError(String::new()).to_string(), "GeneralError(\"\")");
    assert!(matches!(create_logger(".fruit.log", LogDir::Home, 5, 3), Err(FruitError::GeneralError(_))));
}

#[test]
fn builder_setters_chain() {
    let mut t = fruitbasket::Trampoline::new("A", "a", "com.a");
    t.name("B").exe("b").ident("com.b").icon("b.icns").version("3.0");
    let text = t.info_plist();
    assert!(text.contains("  CFBundleName = \"B\";\n"));
    assert!(text.contains("  CFBundleExecutable = \"b\";\n"));
    assert!(text.contains("  CFBundleIdentifier = \"com.b\";\n"));
    assert!(text.contains("  CFBundleIconFile = \"b.icns\";\n"));
    assert!(text.contains("  CFBundleVersion = \"3.0\";\n"));
}

#[test]
fn join_adds_one_separator() {
    assert_eq!(fruitbasket::join_path("/a", "b"), "/a/b");
}
