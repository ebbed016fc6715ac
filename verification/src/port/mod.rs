//! What the engine hands to the outside world and gets back from it: execution
//! commands, exchange query results and order execution results.
pub mod execution_port;
pub mod exchange_query_port;
pub mod order_execution_port;
