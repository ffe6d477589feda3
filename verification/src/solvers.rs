/// The fixed-step solving algorithms: Euler and classical Runge-Kutta.
pub mod fixed_step;
