//! Driving an evaluator with an engine that knows scripts that return one text.
use proxydetox::dns::my_ip_address;
use proxydetox::evaluator::{
    proxies_from, CreateEvaluatorError, Evaluator, FindProxyError, JsAction, JsReply, Outcome,
    PacScriptError, DEFAULT_PAC_SCRIPT, DNS_CACHE_NAME, DNS_RESOLVE_NAME,
};
use proxydetox::proxy::{Proxies, ProxyDesc};
use proxydetox::uri::Uri;

/// An engine: its stack, the last script and the text that it returns, and what was printed.
struct Engine {
    stack: Vec<String>,
    script: String,
    result: String,
    printed: Vec<String>,
    hosts: Vec<(String, String)>,
    functions: Vec<(String, i32)>,
    pointers: Vec<String>,
}

fn engine() -> Engine {
    Engine {
        stack: Vec::new(),
        script: String::new(),
        result: String::new(),
        printed: Vec::new(),
        hosts: vec![("localhost".to_string(), "127.0.0.1".to_string())],
        functions: Vec::new(),
        pointers: Vec::new(),
    }
}

fn quoted_after<'a>(script: &'a str, word: &str) -> Option<&'a str> {
    let start = script.find(word)? + word.len();
    let len = script[start..].find('"')?;
    Some(&script[start..start + len])
}

impl Engine {
    fn run(&mut self, action: JsAction) -> JsReply {
        match action {
            JsAction::CreateContext | JsAction::EvalPacUtils => JsReply::Done,
            JsAction::PutGlobalPointer(name) => {
                self.pointers.push(name.to_string());
                JsReply::Done
            }
            JsAction::PushFunction(name, arity) => {
                self.functions.push((name.to_string(), arity));
                JsReply::Done
            }
            JsAction::Eval(text) => match quoted_after(&text, "return \"") {
                Some(result) => {
                    self.result = result.to_string();
                    self.script = text;
                    JsReply::Done
                }
                None => JsReply::Failed,
            },
            JsAction::GetGlobalString(name) => {
                self.stack.push(name.to_string());
                JsReply::Done
            }
            JsAction::PushString(text) => {
                self.stack.push(text);
                JsReply::Done
            }
            JsAction::Call(arity) => {
                let at = self.stack.len() - arity as usize - 1;
                let call = self.stack.split_off(at);
                let value = if call[0] == "FindProxyForURL" {
                    if let Some(message) = quoted_after(&self.script, "alert(\"") {
                        self.printed.push(message.to_string());
                    }
                    self.result.clone()
                } else {
                    match self.hosts.iter().find(|h| h.0 == call[1]) {
                        Some(host) => host.1.clone(),
                        None => "null".to_string(),
                    }
                };
                self.stack.push(value);
                JsReply::Done
            }
            JsAction::Pop => match self.stack.pop() {
                Some(value) if value == "null" => JsReply::Null,
                Some(value) => JsReply::Text(value),
                None => JsReply::Failed,
            },
        }
    }
}

fn drive(eval: &mut Evaluator, engine: &mut Engine) -> Outcome {
    loop {
        let action = eval.action().unwrap();
        let reply = engine.run(action);
        assert!(eval.accepts(&reply));
        match eval.advance(reply) {
            Outcome::Continue => {}
            outcome => return outcome,
        }
    }
}

fn ready() -> (Evaluator, Engine) {
    let mut eval = Evaluator::new();
    let mut engine = engine();
    assert!(matches!(drive(&mut eval, &mut engine), Outcome::Created(Ok(()))));
    (eval, engine)
}

fn find(eval: &mut Evaluator, engine: &mut Engine, url: &str) -> Result<Proxies, FindProxyError> {
    eval.find_proxy(&Uri::parse(url).unwrap())?;
    match drive(eval, engine) {
        Outcome::ProxiesFound(found) => found,
        _ => panic!("another operation ended"),
    }
}

fn resolve(eval: &mut Evaluator, engine: &mut Engine, host: &str) -> Option<String> {
    eval.dns_resolve(host);
    match drive(eval, engine) {
        Outcome::Resolved(address) => address,
        _ => panic!("another operation ended"),
    }
}

#[test]
fn test_find_proxy() {
    let (mut eval, mut engine) = ready();
    assert_eq!(
        find(&mut eval, &mut engine, "http://localhost/").unwrap(),
        Proxies::new(vec![ProxyDesc::Direct])
    );
}

#[test]
fn test_dns_resolve() {
    let (mut eval, mut engine) = ready();
    assert_ne!(resolve(&mut eval, &mut engine, "localhost"), None);
    assert_eq!(resolve(&mut eval, &mut engine, "thishostdoesnotexist."), None);
}

#[test]
fn test_alert() {
    let script = "function FindProxyForURL(url, host) { alert(\"alert\"); return \"DIRECT\"; }";
    let mut eval = Evaluator::with_pac_script(script);
    let mut engine = engine();
    assert!(matches!(drive(&mut eval, &mut engine), Outcome::Created(Ok(()))));
    assert_eq!(
        find(&mut eval, &mut engine, "http://localhost/").unwrap(),
        Proxies::new(vec![ProxyDesc::Direct])
    );
    assert_eq!(engine.printed, vec!["alert".to_string()]);
}

#[test]
fn engine_is_set_up_in_order() {
    let (_, engine) = ready();
    assert_eq!(engine.pointers, vec![DNS_CACHE_NAME.to_string()]);
    assert_eq!(
        engine.functions,
        vec![
            (DNS_RESOLVE_NAME.to_string(), 1),
            ("alert".to_string(), 1),
            ("myIpAddress".to_string(), 0),
        ]
    );
    assert_eq!(engine.result, "DIRECT");
}

#[test]
fn script_of_the_evaluator_comes_last() {
    let mut eval = Evaluator::with_pac_script("mine");
    let mut actions = Vec::new();
    while let Some(action) = eval.action() {
        actions.push(format!("{:?}", action));
        eval.advance(JsReply::Done);
    }
    assert_eq!(actions.len(), 8);
    assert_eq!(actions[0], "CreateContext");
    assert_eq!(actions[5], "EvalPacUtils");
    assert_eq!(actions[6], format!("Eval({:?})", DEFAULT_PAC_SCRIPT));
    assert_eq!(actions[7], "Eval(\"mine\")");
    assert!(eval.is_idle());
}

#[test]
fn failing_set_up_is_reported() {
    for fails in 0..5 {
        let mut eval = Evaluator::new();
        for _ in 0..fails {
            assert!(matches!(eval.advance(JsReply::Done), Outcome::Continue));
        }
        assert!(matches!(
            eval.advance(JsReply::Failed),
            Outcome::Created(Err(CreateEvaluatorError::CreateContext))
        ));
        assert!(!eval.is_idle());
        assert!(eval.action().is_none());
        assert!(!eval.accepts(&JsReply::Done));
    }
}

#[test]
fn scripts_of_the_evaluator_must_not_fail() {
    let mut eval = Evaluator::new();
    for _ in 0..5 {
        eval.advance(JsReply::Done);
    }
    assert!(!eval.accepts(&JsReply::Failed));
    eval.advance(JsReply::Done);
    assert!(!eval.accepts(&JsReply::Failed));
    assert!(eval.accepts(&JsReply::Done));
}

#[test]
fn refused_script_is_reported() {
    let mut eval = Evaluator::with_pac_script("no script");
    let mut engine = engine();
    match drive(&mut eval, &mut engine) {
        Outcome::Created(Err(e)) => {
            assert_eq!(e, CreateEvaluatorError::EvalPacFile(PacScriptError));
            assert_eq!(e, CreateEvaluatorError::from(PacScriptError));
            assert_eq!(e.message(), "failed to evaluate PAC: Invalid PAC script");
        }
        _ => panic!("the script was not refused"),
    }
}

#[test]
fn script_can_be_replaced() {
    let (mut eval, mut engine) = ready();
    eval.set_pac_script(Some("function FindProxyForURL() { return \"PROXY proxy:3128\"; }"));
    assert!(matches!(drive(&mut eval, &mut engine), Outcome::ScriptSet(Ok(()))));
    assert_eq!(
        find(&mut eval, &mut engine, "http://example.org/").unwrap(),
        Proxies::new(vec![ProxyDesc::Proxy(Uri::parse("proxy:3128").unwrap())])
    );
    eval.set_pac_script(Some("no script"));
    assert!(matches!(drive(&mut eval, &mut engine), Outcome::ScriptSet(Err(PacScriptError))));
    assert!(eval.is_idle());
    eval.set_pac_script(None);
    assert!(matches!(drive(&mut eval, &mut engine), Outcome::ScriptSet(Ok(()))));
    assert_eq!(find(&mut eval, &mut engine, "http://example.org/").unwrap(), Proxies::direct());
}

#[test]
fn script_gets_url_and_host() {
    let (mut eval, _) = ready();
    eval.find_proxy(&Uri::parse("http://user@example.org:8080/a?b").unwrap()).unwrap();
    let mut actions = Vec::new();
    while let Some(action) = eval.action() {
        actions.push(format!("{:?}", action));
        eval.advance(JsReply::Done);
    }
    assert_eq!(
        actions,
        vec![
            "GetGlobalString(\"FindProxyForURL\")",
            "PushString(\"http://user@example.org:8080/a?b\")",
            "PushString(\"example.org\")",
            "Call(2)",
            "Pop",
        ]
    );
}

#[test]
fn url_without_host_is_refused() {
    let (mut eval, _) = ready();
    assert_eq!(eval.find_proxy(&Uri::parse("/path").unwrap()), Err(FindProxyError::NoHost));
    assert!(eval.is_idle());
}

#[test]
fn engine_failure_is_an_internal_error() {
    for fails in 0..3 {
        let (mut eval, mut engine) = ready();
        eval.find_proxy(&Uri::parse("http://localhost/").unwrap()).unwrap();
        for _ in 0..fails {
            let reply = engine.run(eval.action().unwrap());
            assert!(matches!(eval.advance(reply), Outcome::Continue));
        }
        assert_eq!(engine.stack.len(), fails);
        let mut outcome = eval.advance(JsReply::Failed);
        for _ in 0..fails {
            assert!(matches!(outcome, Outcome::Continue));
            assert!(matches!(eval.action(), Some(JsAction::Pop)));
            outcome = eval.advance(engine.run(JsAction::Pop));
        }
        assert!(matches!(
            outcome,
            Outcome::ProxiesFound(Err(FindProxyError::InternalError))
        ));
        assert!(engine.stack.is_empty());
        assert!(eval.is_idle());
        assert_eq!(
            find(&mut eval, &mut engine, "http://localhost/"),
            Ok(Proxies::direct())
        );
    }
}

#[test]
fn how_the_call_went_does_not_count() {
    let (mut eval, _) = ready();
    eval.find_proxy(&Uri::parse("http://localhost/").unwrap()).unwrap();
    for _ in 0..3 {
        eval.advance(JsReply::Done);
    }
    assert!(matches!(eval.advance(JsReply::Failed), Outcome::Continue));
    match eval.advance(JsReply::Text("DIRECT".to_string())) {
        Outcome::ProxiesFound(found) => assert_eq!(found, Ok(Proxies::direct())),
        _ => panic!("another operation ended"),
    }
}

#[test]
fn finding_a_proxy_keeps_the_stack() {
    let (mut eval, mut engine) = ready();
    find(&mut eval, &mut engine, "http://localhost/").unwrap();
    assert!(engine.stack.is_empty());
    resolve(&mut eval, &mut engine, "localhost");
    assert!(engine.stack.is_empty());
}

#[test]
fn value_that_lists_no_proxies_is_invalid() {
    for value in [
        JsReply::Null,
        JsReply::Other,
        JsReply::Failed,
        JsReply::Done,
        JsReply::Text("SOCKS proxy:1080".to_string()),
        JsReply::Text(String::new()),
    ] {
        assert_eq!(proxies_from(&value), Err(FindProxyError::InvalidResult));
    }
    assert_eq!(
        proxies_from(&JsReply::Text("DIRECT".to_string())),
        Ok(Proxies::new(vec![ProxyDesc::Direct]))
    );
}

#[test]
fn evaluator_errors_have_messages() {
    assert_eq!(CreateEvaluatorError::CreateContext.message(), "failed to create JS context");
    assert_eq!(PacScriptError.message(), "Invalid PAC script");
    assert_eq!(FindProxyError::NoHost.message(), "no host in URL");
    assert_eq!(FindProxyError::InvalidResult.message(), "invalid result from PAC script");
    assert_eq!(
        FindProxyError::InternalError.message(),
        "internal error when processing PAC script"
    );
}

#[test]
fn resolving_needs_a_text_or_null() {
    let (mut eval, _) = ready();
    eval.dns_resolve("localhost");
    assert!(!eval.accepts(&JsReply::Failed));
    for _ in 0..3 {
        assert!(matches!(eval.advance(JsReply::Done), Outcome::Continue));
    }
    assert!(!eval.accepts(&JsReply::Other));
    assert!(!eval.accepts(&JsReply::Failed));
    assert!(eval.accepts(&JsReply::Null));
    match eval.advance(JsReply::Text("::1".to_string())) {
        Outcome::Resolved(address) => assert_eq!(address, Some("::1".to_string())),
        _ => panic!("another operation ended"),
    }
}

#[test]
fn evaluator_remembers_addresses() {
    let (mut eval, _) = ready();
    assert!(eval.cache().is_empty());
    assert_eq!(eval.known_address("a"), None);
    eval.remember_address("a", None);
    eval.remember_address("b", Some("192.0.2.1".to_string()));
    assert_eq!(eval.known_address("a"), Some(None));
    eval.remember_address("a", Some("192.0.2.2".to_string()));
    assert_eq!(
        eval.cache(),
        vec![
            ("a".to_string(), Some("192.0.2.2".to_string())),
            ("b".to_string(), Some("192.0.2.1".to_string())),
        ]
    );
    assert!(eval.is_idle());
}

#[test]
fn machine_without_an_address_is_the_local_host() {
    assert_eq!(my_ip_address(Some("192.0.2.7".to_string())), "192.0.2.7");
    assert_eq!(my_ip_address(None), "127.0.0.1");
}
