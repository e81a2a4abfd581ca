pub mod cloudfront;
pub mod cognito;
pub mod firebase;
pub mod jwks;
pub mod lambda;
pub mod rdb;
pub mod s3;
pub mod sentry;
pub mod ses;
