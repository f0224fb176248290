use lua_bridge::script::{Ctx, Method, Request, Side};

#[test]
fn context_offers_thirteen_methods_in_order() {
    let names: Vec<&str> = Ctx::add_methods().into_iter().map(|m| m.name()).collect();
    assert_eq!(
        names,
        vec![
            "read_client",
            "write_client",
            "read_backend",
            "write_backend",
            "read_client_str",
            "write_client_str",
            "read_backend_str",
            "write_backend_str",
            "close_client",
            "close_backend",
            "close_all",
            "close",
            "select",
        ]
    );
}

#[test]
fn reads_ask_for_the_size_or_the_buffer() {
    let ctx = Ctx::new(32768);
    assert_eq!(
        ctx.request(Method::ReadClient, 0),
        Request::Read { side: Side::Client, size: 32768, text: false }
    );
    assert_eq!(
        ctx.request(Method::ReadBackend, 10),
        Request::Read { side: Side::Backend, size: 10, text: false }
    );
    assert_eq!(
        ctx.request(Method::ReadClientStr, 7),
        Request::Read { side: Side::Client, size: 7, text: true }
    );
    assert_eq!(
        ctx.request(Method::ReadBackendStr, 0),
        Request::Read { side: Side::Backend, size: 32768, text: true }
    );
    assert_eq!(ctx.request(Method::Select, 0), Request::Race { size: 32768 });
    assert_eq!(ctx.request(Method::Select, 3), Request::Race { size: 3 });
}

#[test]
fn writes_and_closes_name_their_side() {
    let ctx = Ctx::new(16);
    assert_eq!(
        ctx.request(Method::WriteClient, 0),
        Request::Write { side: Side::Client, text: false }
    );
    assert_eq!(
        ctx.request(Method::WriteBackend, 0),
        Request::Write { side: Side::Backend, text: false }
    );
    assert_eq!(
        ctx.request(Method::WriteClientStr, 0),
        Request::Write { side: Side::Client, text: true }
    );
    assert_eq!(
        ctx.request(Method::WriteBackendStr, 99),
        Request::Write { side: Side::Backend, text: true }
    );
    assert_eq!(ctx.request(Method::CloseClient, 0), Request::Close { side: Side::Client });
    assert_eq!(ctx.request(Method::CloseBackend, 0), Request::Close { side: Side::Backend });
    assert_eq!(ctx.request(Method::CloseAll, 0), Request::CloseAll);
    assert_eq!(ctx.request(Method::Close, 0), Request::CloseAll);
}
