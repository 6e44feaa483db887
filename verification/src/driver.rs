//! Drivers: each binds one pool to the one type of connection that it
//! hands out.

use crate::error::{DatabaseError, DriverError};
use crate::scope::runner::RepositoryAccess;
use vstd::prelude::*;

verus! {

/// A binding between a pool and the type of connection that it produces.
/// Only the driver checks connections out of its pool.
pub trait Driver {
    type Connection;

    /// Checks a connection out, waiting for one no longer than the pool
    /// allows. The connection goes back when the value is dropped.
    fn connect(&self) -> Result<Self::Connection, DriverError>;
}

/// Access to a backend for repositories, through the backend's driver.
pub struct Repository<D> {
    pub driver: D,
}

impl<D: Driver> Repository<D> {
    pub fn new(driver: D) -> (repository: Repository<D>)
        ensures
            repository.driver == driver,
    {
        Repository { driver }
    }
}

/// What a repository reports for what its driver returned: the connection
/// as it is, and a failure unchanged, marked as the driver's.
pub fn from_driver<C>(returned: Result<C, DriverError>) -> (connection: Result<C, DatabaseError>)
    ensures
        match returned {
            Ok(c) => connection == Ok::<C, DatabaseError>(c),
            Err(e) => connection == Err::<C, DatabaseError>(DatabaseError::Driver(e)),
        },
{
    match returned {
        Ok(c) => Ok(c),
        Err(e) => Err(DatabaseError::Driver(e)),
    }
}

impl<D: Driver> RepositoryAccess<D::Connection> for Repository<D> {
    /// A connection from the driver. What the driver returns is passed on
    /// as [`from_driver`] says.
    fn connect(&self) -> (connection: Result<D::Connection, DatabaseError>)
        ensures
            connection matches Err(e) ==> e is Driver,
    {
        from_driver(self.driver.connect())
    }
}

} // verus!
