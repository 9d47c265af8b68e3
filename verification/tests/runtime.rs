use flows::{EmbassyRuntime, TokioRuntime};

#[test]
fn backend_handles_construct() {
    let t = TokioRuntime::new();
    let _copy = t;
    let _ = format!("{:?}", t);
    let _ = TokioRuntime::default();

    let e = EmbassyRuntime::new();
    let _copy = e;
    let _ = format!("{:?}", e);
    let _ = EmbassyRuntime::default();
}
