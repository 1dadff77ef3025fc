use keep_awake::lang::{is_chinese, Lang};

#[test]
fn chinese_locales() {
    assert!(is_chinese("zh_CN.UTF-8"));
    assert!(is_chinese("zh-TW"));
    assert!(is_chinese("zh"));
}

#[test]
fn other_locales() {
    assert!(!is_chinese("en_US.UTF-8"));
    assert!(!is_chinese("z"));
    assert!(!is_chinese(""));
    assert!(!is_chinese("ZH_CN"));
    assert!(!is_chinese(" zh"));
}

#[test]
fn detect_prefers_lang_variable() {
    assert_eq!(Lang::detect_from(Some("zh_CN.UTF-8"), None), Lang::Zh);
    assert_eq!(Lang::detect_from(Some("zh_CN.UTF-8"), Some("en-US")), Lang::Zh);
}

#[test]
fn detect_falls_back_to_culture() {
    assert_eq!(Lang::detect_from(Some("en_US.UTF-8"), Some("zh-CN")), Lang::Zh);
    assert_eq!(Lang::detect_from(None, Some("zh-CN")), Lang::Zh);
}

#[test]
fn detect_defaults_to_english() {
    assert_eq!(Lang::detect_from(None, None), Lang::En);
    assert_eq!(Lang::detect_from(Some("C"), Some("en-GB")), Lang::En);
}

#[test]
fn pick_text() {
    assert_eq!(Lang::En.pick("Quit", "退出"), "Quit");
    assert_eq!(Lang::Zh.pick("Quit", "退出"), "退出");
}
