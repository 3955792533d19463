//! Rules for Node server code: Express, Fastify, Hono and Koa handlers.
pub mod helpers;
pub mod reliability;
pub mod security;
pub mod performance;
pub mod architecture;
