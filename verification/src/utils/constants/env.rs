//! The names of the environment variables the service reads.

use vstd::prelude::*;

verus! {

pub const JWT_SECRET_ENV_VAR: &'static str = "JWT_SECRET";

pub const YOUR_IP_ENV_VAR: &'static str = "YOUR_IP";

pub const POSTGRES_DB_ENV_VAR: &'static str = "POSTGRES_DB";

pub const POSTGRES_PASSWORD_ENV_VAR: &'static str = "POSTGRES_PASSWORD";

pub const POSTGRES_PORT_ENV_VAR: &'static str = "POSTGRES_PORT";

pub const POSTGRES_HOST_ENV_VAR: &'static str = "POSTGRES_HOST";

pub const POSTGRES_USER_ENV_VAR: &'static str = "POSTGRES_USER";

pub const DATABASE_URL_ENV_VAR: &'static str = "DATABASE_URL";

pub const REDIS_HOST_ENV_VAR: &'static str = "REDIS_HOST";

} // verus!
