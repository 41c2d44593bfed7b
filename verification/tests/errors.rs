use servicehub::errors::CustomProjectErrors;
use servicehub::rmq::builder::ConnectionBuilder;

#[test]
fn errors_describe_themselves() {
    let text = String::from("boom");
    assert_eq!(
        CustomProjectErrors::RMQConnectionError(text.clone()).to_string(),
        "Error while connecting to RMQ: boom"
    );
    assert_eq!(
        CustomProjectErrors::RMQChannelCreationError(text.clone()).to_string(),
        "Channel on create error: boom"
    );
    assert_eq!(
        CustomProjectErrors::RMQChannelError(text.clone()).to_string(),
        "Channel method error: boom"
    );
    assert_eq!(
        CustomProjectErrors::RMQPublishError(text.clone()).to_string(),
        "Message publish error: boom"
    );
    assert_eq!(CustomProjectErrors::RMQAckError(text.clone()).to_string(), "boom");
    assert_eq!(
        CustomProjectErrors::ValidationError(String::from("BaseRequest"), text.clone())
            .to_string(),
        "Model BaseRequest validation error: boom"
    );
    assert_eq!(CustomProjectErrors::DatabaseConnectionError(text.clone()).to_string(), "boom");
    assert_eq!(CustomProjectErrors::DatabaseOperationError(text.clone()).to_string(), "boom");
    assert_eq!(
        CustomProjectErrors::DatabaseTypeValidationError(text.clone()).to_string(),
        "boom"
    );
    assert_eq!(
        CustomProjectErrors::IncomingSerializingMessageError(text.clone()).to_string(),
        "Rmq message deserializing error: boom"
    );
    assert_eq!(
        CustomProjectErrors::SerializingStructError(text).to_string(),
        "Struct cannot be serialized: boom"
    );
    assert_eq!(CustomProjectErrors::DatabaseHealthCheckError.to_string(), "Health Check error");
    assert_eq!(CustomProjectErrors::Unknown.to_string(), "Unknown error");
    assert_eq!(CustomProjectErrors::default(), CustomProjectErrors::Unknown);
}

#[test]
fn connection_builder_collects_the_addresses() {
    let builder = ConnectionBuilder::new();
    assert_eq!(builder.rmq_url(), "");
    assert_eq!(builder.sql_url(), "");
    assert_eq!(builder.max_pool_size(), 0);
    let builder = builder.with_rmq_url(String::from("amqp://mq"));
    assert_eq!(builder.rmq_url(), "amqp://mq");
    assert_eq!(builder.sql_url(), "");
    let builder = builder.with_sql_pool(String::from("postgresql://db"), 9);
    assert_eq!(builder.rmq_url(), "amqp://mq");
    assert_eq!(builder.sql_url(), "postgresql://db");
    assert_eq!(builder.max_pool_size(), 9);
    let builder = builder.with_rmq_url(String::from("amqp://other"));
    assert_eq!(builder.rmq_url(), "amqp://other");
    assert_eq!(builder.sql_url(), "postgresql://db");
    assert_eq!(builder.max_pool_size(), 9);
    assert_eq!(ConnectionBuilder::default().rmq_url(), "");
}
