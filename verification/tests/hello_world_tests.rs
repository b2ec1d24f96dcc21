use grpc_services::hello_world::{GreetError, HelloReply, HelloRequest, MyGreeter};

fn greet(name: &str) -> Result<HelloReply, GreetError> {
    MyGreeter.say_hello(HelloRequest { name: name.to_string() })
}

#[test]
fn greets_names() {
    assert_eq!(greet("World").unwrap().message, "Hello World!");
    assert_eq!(greet("Tonic").unwrap().message, "Hello Tonic!");
    assert_eq!(greet("Rust").unwrap().message, "Hello Rust!");
    assert_eq!(greet("").unwrap().message, "Hello !");
    assert_eq!(greet("error").unwrap().message, "Hello error!");
}

#[test]
fn refuses_error_name() {
    assert_eq!(
        greet("Error"),
        Err(GreetError::Unauthenticated("Unauthenticated user".to_string()))
    );
}
