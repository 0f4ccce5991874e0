//! The fixed reduction kernel the Kernel Executor compiles.
//!
//! Each work-item multiplies a private block of element pairs and sums the
//! products; the group's single partial sum lands in the output slot of the
//! work-item's group. The addressing tiles the input disjointly: the
//! work-item of group `g` reads elements `g * PRIVATE_SIZE + i`. A
//! group-plus-offset scheme (`g + i`) would revisit overlapping elements
//! across groups and overrun the input once group ids grow, so it is
//! deliberately not used. The local barrier after the private products is
//! advisory while each group holds a single work-item, but keeps the kernel
//! correct if the group size is ever raised.

use vstd::prelude::*;

verus! {

/// The kernel's source text, fixed for every invocation.
pub open spec fn spec_kernel_source() -> Seq<char> {
    "
    __kernel void dot_product(
      __global double* x,
      __global double* y,
      __global double* partial_sums
    ){
      const int LOCAL_ID = get_local_id(0);
      const int GROUP_ID = get_group_id(0);
      const size_t PRIVATE_SIZE = 4;

      double tmp[4];

      for(size_t i = 0; i < PRIVATE_SIZE; ++i){
        const size_t j = GROUP_ID * PRIVATE_SIZE + LOCAL_ID * PRIVATE_SIZE + i;
        tmp[i] = x[j] * y[j];
      }

      barrier(CLK_LOCAL_MEM_FENCE);

      double tmp1 = 0.0;
      for(size_t i = 0; i < PRIVATE_SIZE; ++i){
        tmp1 += tmp[i];
      }

      partial_sums[ GROUP_ID ] = tmp1;
    }
    "@
}

/// The entry point's name inside the kernel source, under which the
/// compiled kernel is looked up.
pub open spec fn spec_kernel_name() -> Seq<char> {
    "dot_product"@
}

/// Hands out the reduction kernel source for the executor to compile.
pub fn kernel_source() -> (s: &'static str)
    ensures
        s@ == spec_kernel_source(),
{
    "
    __kernel void dot_product(
      __global double* x,
      __global double* y,
      __global double* partial_sums
    ){
      const int LOCAL_ID = get_local_id(0);
      const int GROUP_ID = get_group_id(0);
      const size_t PRIVATE_SIZE = 4;

      double tmp[4];

      for(size_t i = 0; i < PRIVATE_SIZE; ++i){
        const size_t j = GROUP_ID * PRIVATE_SIZE + LOCAL_ID * PRIVATE_SIZE + i;
        tmp[i] = x[j] * y[j];
      }

      barrier(CLK_LOCAL_MEM_FENCE);

      double tmp1 = 0.0;
      for(size_t i = 0; i < PRIVATE_SIZE; ++i){
        tmp1 += tmp[i];
      }

      partial_sums[ GROUP_ID ] = tmp1;
    }
    "
}

/// Hands out the kernel entry point's name.
pub fn kernel_name() -> (s: &'static str)
    ensures
        s@ == spec_kernel_name(),
{
    "dot_product"
}

} // verus!
