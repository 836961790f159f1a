use std::marker::PhantomData;

use vstd::prelude::*;

verus! {

pub const PJ_CACHING_POOL_DEAULT_INIT_SIZE: usize = 1000;

pub const PJ_CACHING_POOL_DEAULT_INCR_SIZE: usize = 1000;

/// A memory pool of pjlib and the caching pool it was made from.
pub struct PjPool {
    pub pool: PjPoolRef<'static>,
    pub caching_pool: PjCachingPool,
}

impl PjPool {
    /// The address of the pool.
    pub fn as_ptr(&self) -> (r: usize)
        ensures
            r == self.pool.pool,
    {
        self.pool.as_ptr()
    }

    /// The address of the pool, for calls that allocate from it.
    pub fn as_mut_ptr(&mut self) -> (r: usize)
        ensures
            r == old(self).pool.pool,
            *final(self) == *old(self),
    {
        self.pool.as_mut_ptr()
    }

    pub fn as_ref(&self) -> (r: &PjPoolRef<'static>)
        ensures
            *r == self.pool,
    {
        &self.pool
    }
}

/// A memory pool of pjlib, known by its address.
pub struct PjPoolRef<'a> {
    pub pool: usize,
    pub phantom: PhantomData<&'a ()>,
}

impl<'a> PjPoolRef<'a> {
    pub fn as_ptr(&self) -> (r: usize)
        ensures
            r == self.pool,
    {
        self.pool
    }

    pub fn as_mut_ptr(&self) -> (r: usize)
        ensures
            r == self.pool,
    {
        self.pool
    }

    pub fn from(value: usize) -> (r: Self)
        ensures
            r.pool == value,
    {
        PjPoolRef { pool: value, phantom: PhantomData }
    }
}

/// A caching pool of pjlib, known by its address. Its pool factory is its
/// first member, so the factory's address is the caching pool's.
pub struct PjCachingPool {
    pub caching_pool: usize,
}

impl PjCachingPool {
    /// The caching pool's factory.
    pub fn factory(&self) -> (r: PjPoolFactory<'_>)
        ensures
            r.factory == self.caching_pool,
    {
        PjPoolFactory { factory: self.caching_pool, phantom: PhantomData }
    }

    /// The caching pool's factory, to create pools with.
    pub fn factory_mut(&mut self) -> (r: PjPoolFactoryMut<'_>)
        ensures
            r.factory == old(self).caching_pool,
    {
        PjPoolFactoryMut { factory: self.caching_pool, phantom: PhantomData }
    }
}

/// The settings of a caching pool, gathered before it is made.
pub struct PjCachingPoolBuilder {
    pub policy: PjPoolFactoryPolicy,
    pub max_capacity: usize,
}

impl PjCachingPoolBuilder {
    pub fn with_policy(&mut self, policy: PjPoolFactoryPolicy) -> (r: &mut Self)
        ensures
            r.policy == policy,
            r.max_capacity == old(self).max_capacity,
            *final(self) == *final(r),
    {
        self.policy = policy;
        self
    }

    pub fn with_max_capacity(&mut self, max_capacity: usize) -> (r: &mut Self)
        ensures
            r.max_capacity == max_capacity,
            r.policy == old(self).policy,
            *final(self) == *final(r),
    {
        self.max_capacity = max_capacity;
        self
    }
}

/// A pool factory, known by its address.
pub struct PjPoolFactory<'a> {
    pub factory: usize,
    pub phantom: PhantomData<&'a ()>,
}

/// A pool factory to create pools with, known by its address.
pub struct PjPoolFactoryMut<'a> {
    pub factory: usize,
    pub phantom: PhantomData<&'a mut ()>,
}

impl<'a> PjPoolFactoryMut<'a> {
    /// The address of the factory.
    pub fn as_mut(&mut self) -> (r: usize)
        ensures
            r == old(self).factory,
            *final(self) == *old(self),
    {
        self.factory
    }
}

/// A pool factory policy, known by its address.
#[derive(Clone, Copy, Debug, PartialEq, Eq, Structural)]
pub struct PjPoolFactoryPolicy(pub usize);

impl PjPoolFactoryPolicy {
    pub fn as_ptr(&self) -> (r: usize)
        ensures
            r == self.0,
    {
        self.0
    }
}

} // verus!
