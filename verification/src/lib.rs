//! Staff-user service core: the request/response worker that answers
//! `post_get_user` envelopes, together with the bearer-token policy and the
//! replies of the read endpoints.

pub mod envelope;
pub mod json;
pub mod kafka_consumer;
pub mod kafka_producer;
pub mod midw;
pub mod resolver;
pub mod transform;
pub mod userroutes;
