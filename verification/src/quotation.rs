pub mod stock_list;
